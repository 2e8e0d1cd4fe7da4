use vstd::prelude::*;
use crate::history::RetentionPolicy;
use crate::retention::{
    beyond_limit, cleaned, cleaned_upto, cleanup_plan_of, is_candidate, lemma_unsaved_count_bound,
    lemma_unsaved_prefix_step, outcome_at, plan_upto, unsaved_count, Eviction,
};

verus! {

/// One transcription and the recording it came from.
#[derive(Clone, Debug, PartialEq, Eq)]
pub struct HistoryEntry {
    pub id: i64,
    pub text: String,
    /// Name of the audio file under the recordings directory, if it is kept.
    pub file_name: Option<String>,
    /// Creation time, in seconds.
    pub timestamp: i64,
    pub saved: bool,
}

/// Why a history operation did not happen.
#[derive(Clone, Debug, PartialEq, Eq)]
pub enum HistoryError {
    /// No entry has this id.
    NotFound(i64),
    /// Removing the audio file of this entry failed; the entry is kept.
    StorageIo(i64, String),
}

fn copy_name(o: &Option<String>) -> (r: Option<String>)
    ensures
        r == *o,
{
    match o {
        Some(s) => Some(s.clone()),
        None => None,
    }
}

impl HistoryEntry {
    /// An entry with the same fields.
    pub fn duplicate(&self) -> (r: HistoryEntry)
        ensures
            r == *self,
    {
        HistoryEntry {
            id: self.id,
            text: self.text.clone(),
            file_name: copy_name(&self.file_name),
            timestamp: self.timestamp,
            saved: self.saved,
        }
    }
}

fn id_listed(v: &Vec<i64>, id: i64) -> (r: bool)
    ensures
        r == v@.contains(id),
{
    let mut i: usize = 0;
    while i < v.len()
        invariant
            i <= v@.len(),
            forall|j: int| 0 <= j < i ==> v@[j] != id,
        decreases v@.len() - i,
    {
        if v[i] == id {
            return true;
        }
        i = i + 1;
    }
    false
}

/// Ids strictly increase along the sequence, which is creation order.
pub open spec fn ids_increasing(s: Seq<HistoryEntry>) -> bool {
    forall|i: int, j: int| 0 <= i < j < s.len() ==> s[i].id < s[j].id
}

/// `name` joined onto `dir` as Unix paths are joined.
pub open spec fn joined_path(dir: Seq<char>, name: Seq<char>) -> Seq<char> {
    if name.len() > 0 && name[0] == '/' {
        name
    } else if dir.len() == 0 || dir.last() == '/' {
        dir + name
    } else {
        dir + seq!['/'] + name
    }
}

/// Creation times never decrease along the sequence.
pub open spec fn timestamps_ordered(s: Seq<HistoryEntry>) -> bool {
    forall|i: int, j: int| 0 <= i < j < s.len() ==> s[i].timestamp <= s[j].timestamp
}

pub open spec fn has_id(s: Seq<HistoryEntry>, id: i64) -> bool {
    exists|i: int| 0 <= i < s.len() && s[i].id == id
}

/// The store's entries, oldest first, and the id that the next entry gets.
pub struct HistoryStore {
    entries: Vec<HistoryEntry>,
    next_id: i64,
    recordings_dir: String,
}

impl HistoryStore {
    pub closed spec fn entries(&self) -> Seq<HistoryEntry> {
        self.entries@
    }

    pub closed spec fn next_id(&self) -> i64 {
        self.next_id
    }

    pub closed spec fn recordings_dir(&self) -> Seq<char> {
        self.recordings_dir@
    }

    /// Ids are unique, increase with creation, and stay below the next id;
    /// creation times follow the same order.
    pub open spec fn wf(&self) -> bool {
        &&& ids_increasing(self.entries())
        &&& timestamps_ordered(self.entries())
        &&& forall|i: int| 0 <= i < self.entries().len() ==> self.entries()[i].id < self.next_id()
    }

    /// An empty store whose audio files live under `recordings_dir`.
    pub fn new(recordings_dir: String) -> (r: HistoryStore)
        ensures
            r.wf(),
            r.entries() == Seq::<HistoryEntry>::empty(),
            r.next_id() == 1,
            r.recordings_dir() == recordings_dir@,
    {
        HistoryStore { entries: Vec::new(), next_id: 1, recordings_dir }
    }

    /// A store over persisted entries, given oldest first. They are accepted
    /// when their ids strictly increase, their creation times do not
    /// decrease, and the last id is below `i64::MAX`; the next id then
    /// follows the last one.
    pub fn from_entries(recordings_dir: String, entries: Vec<HistoryEntry>) -> (r: Option<HistoryStore>)
        ensures
            r is Some <==> ids_increasing(entries@) && timestamps_ordered(entries@) && (entries@.len() == 0
                || entries@.last().id < i64::MAX),
            r matches Some(st) ==> {
                &&& st.wf()
                &&& st.entries() == entries@
                &&& st.recordings_dir() == recordings_dir@
                &&& st.next_id() == if entries@.len() == 0 {
                    1
                } else {
                    entries@.last().id + 1
                }
            },
    {
        let n = entries.len();
        let mut i: usize = 1;
        while i < n
            invariant
                n == entries@.len(),
                1 <= i,
                i <= n || n == 0,
                forall|a: int, b: int| 0 <= a < b < i && b < n ==> entries@[a].id < entries@[b].id,
                forall|a: int, b: int|
                    0 <= a < b < i && b < n ==> entries@[a].timestamp <= entries@[b].timestamp,
            decreases n - i,
        {
            if entries[i - 1].id >= entries[i].id || entries[i - 1].timestamp > entries[i].timestamp {
                return None;
            }
            i = i + 1;
        }
        if n == 0 {
            return Some(HistoryStore { entries, next_id: 1, recordings_dir });
        }
        let last = entries[n - 1].id;
        if last == i64::MAX {
            return None;
        }
        Some(HistoryStore { entries, next_id: last + 1, recordings_dir })
    }

    /// Records a new unsaved entry and returns its id, never used before.
    pub fn add_entry(&mut self, text: String, file_name: Option<String>, timestamp: i64) -> (id: i64)
        requires
            old(self).wf(),
            old(self).next_id() < i64::MAX,
            old(self).entries().len() > 0 ==> old(self).entries().last().timestamp <= timestamp,
        ensures
            final(self).wf(),
            id == old(self).next_id(),
            final(self).next_id() == old(self).next_id() + 1,
            final(self).recordings_dir() == old(self).recordings_dir(),
            final(self).entries() == old(self).entries().push(
                (HistoryEntry { id, text, file_name, timestamp, saved: false }),
            ),
    {
        let id = self.next_id;
        self.entries.push(HistoryEntry { id, text, file_name, timestamp, saved: false });
        self.next_id = id + 1;
        id
    }

    /// All entries, most recent first.
    pub fn list(&self) -> (r: Vec<HistoryEntry>)
        ensures
            r@.len() == self.entries().len(),
            forall|i: int|
                0 <= i < r@.len() ==> r@[i] == self.entries()[self.entries().len() - 1 - i],
            self.wf() ==> forall|i: int, j: int|
                0 <= i < j < r@.len() ==> r@[i].timestamp >= r@[j].timestamp,
    {
        let n = self.entries.len();
        let mut out: Vec<HistoryEntry> = Vec::new();
        let mut k: usize = n;
        while k > 0
            invariant
                n == self.entries@.len(),
                k <= n,
                out@.len() == n - k,
                forall|i: int| 0 <= i < out@.len() ==> out@[i] == self.entries@[n - 1 - i],
            decreases k,
        {
            k = k - 1;
            out.push(self.entries[k].duplicate());
        }
        out
    }

    fn find(&self, id: i64) -> (r: Option<usize>)
        ensures
            match r {
                Some(i) => i < self.entries().len() && self.entries()[i as int].id == id,
                None => !has_id(self.entries(), id),
            },
    {
        let mut i: usize = 0;
        while i < self.entries.len()
            invariant
                i <= self.entries@.len(),
                forall|j: int| 0 <= j < i ==> self.entries@[j].id != id,
            decreases self.entries@.len() - i,
        {
            if self.entries[i].id == id {
                return Some(i);
            }
            i = i + 1;
        }
        None
    }

    /// Flips the saved flag of the entry with this id.
    pub fn toggle_saved(&mut self, id: i64) -> (r: Result<(), HistoryError>)
        requires
            old(self).wf(),
        ensures
            final(self).wf(),
            final(self).next_id() == old(self).next_id(),
            final(self).recordings_dir() == old(self).recordings_dir(),
            r is Err <==> !has_id(old(self).entries(), id),
            r is Err ==> r == Err::<(), HistoryError>(HistoryError::NotFound(id))
                && final(self).entries() == old(self).entries(),
            forall|i: int|
                0 <= i < old(self).entries().len() && old(self).entries()[i].id == id
                    ==> final(self).entries() == old(self).entries().update(
                    i,
                    (HistoryEntry { saved: !old(self).entries()[i].saved, ..old(self).entries()[i] }),
                ),
    {
        match self.find(id) {
            None => Err(HistoryError::NotFound(id)),
            Some(i) => {
                let flipped = !self.entries[i].saved;
                self.entries[i].saved = flipped;
                Ok(())
            },
        }
    }

    /// Replaces the text of the entry with this id; its timestamp is kept.
    pub fn update_text(&mut self, id: i64, new_text: String) -> (r: Result<(), HistoryError>)
        requires
            old(self).wf(),
        ensures
            final(self).wf(),
            final(self).next_id() == old(self).next_id(),
            final(self).recordings_dir() == old(self).recordings_dir(),
            r is Err <==> !has_id(old(self).entries(), id),
            r is Err ==> r == Err::<(), HistoryError>(HistoryError::NotFound(id))
                && final(self).entries() == old(self).entries(),
            forall|i: int|
                0 <= i < old(self).entries().len() && old(self).entries()[i].id == id
                    ==> final(self).entries() == old(self).entries().update(
                    i,
                    (HistoryEntry { text: new_text, ..old(self).entries()[i] }),
                ),
    {
        match self.find(id) {
            None => Err(HistoryError::NotFound(id)),
            Some(i) => {
                self.entries[i].text = new_text;
                Ok(())
            },
        }
    }
    /// Full location of a stored audio file: the recordings directory joined
    /// with the file name as a path is joined on Unix. An absolute name
    /// stands alone; otherwise one `/` separates the two, unless the
    /// directory is empty or already ends in `/`. Touches neither the store
    /// nor the disk, and the same name always gives the same path.
    pub fn resolve_audio_path(&self, file_name: &str) -> (r: String)
        ensures
            r@ == joined_path(self.recordings_dir(), file_name@),
    {
        let n = file_name.unicode_len();
        if n > 0 && file_name.get_char(0) == '/' {
            return String::from_str(file_name);
        }
        let mut path = self.recordings_dir.clone();
        let d = path.as_str().unicode_len();
        if d > 0 && path.as_str().get_char(d - 1) != '/' {
            proof {
                reveal_strlit("/");
            }
            path.append("/");
        }
        path.append(file_name);
        path
    }

    /// The audio file that must be removed before the entry with this id is
    /// deleted.
    pub fn audio_of(&self, id: i64) -> (r: Result<Option<String>, HistoryError>)
        requires
            self.wf(),
        ensures
            r is Err <==> !has_id(self.entries(), id),
            r is Err ==> r == Err::<Option<String>, HistoryError>(HistoryError::NotFound(id)),
            forall|i: int|
                0 <= i < self.entries().len() && self.entries()[i].id == id
                    ==> r == Ok::<Option<String>, HistoryError>(self.entries()[i].file_name),
    {
        match self.find(id) {
            None => Err(HistoryError::NotFound(id)),
            Some(i) => Ok(copy_name(&self.entries[i].file_name)),
        }
    }

    /// Deletes the entry with this id, given how removing its audio file went
    /// (`Ok` when it had none). When that removal failed, the entry is kept
    /// whole and the failure is reported: a record is never left pointing at
    /// a removed file, nor a file without its record.
    pub fn delete(&mut self, id: i64, file_removal: Result<(), String>) -> (r: Result<(), HistoryError>)
        requires
            old(self).wf(),
        ensures
            final(self).wf(),
            final(self).next_id() == old(self).next_id(),
            final(self).recordings_dir() == old(self).recordings_dir(),
            r is Err ==> final(self).entries() == old(self).entries(),
            !has_id(old(self).entries(), id) ==> r == Err::<(), HistoryError>(HistoryError::NotFound(id)),
            match file_removal {
                Err(m) => has_id(old(self).entries(), id) ==> r == Err::<(), HistoryError>(
                    HistoryError::StorageIo(id, m),
                ),
                Ok(_) => has_id(old(self).entries(), id) ==> r is Ok,
            },
            r is Ok ==> forall|i: int|
                0 <= i < old(self).entries().len() && old(self).entries()[i].id == id
                    ==> final(self).entries() == old(self).entries().remove(i),
    {
        match self.find(id) {
            None => Err(HistoryError::NotFound(id)),
            Some(i) => {
                match file_removal {
                    Err(m) => Err(HistoryError::StorageIo(id, m)),
                    Ok(()) => {
                        let ghost before = self.entries@;
                        self.entries.remove(i);
                        proof {
                            before.remove_ensures(i as int);
                        }
                        Ok(())
                    },
                }
            },
        }
    }
    fn count_unsaved(&self) -> (r: usize)
        ensures
            r == unsaved_count(self.entries()),
    {
        let n = self.entries.len();
        let mut c: usize = 0;
        let mut i: usize = 0;
        while i < n
            invariant
                n == self.entries@.len(),
                i <= n,
                c == unsaved_count(self.entries@.subrange(0, i as int)),
            decreases n - i,
        {
            proof {
                lemma_unsaved_prefix_step(self.entries@, i as int);
                lemma_unsaved_count_bound(self.entries@.subrange(0, i as int));
            }
            if !self.entries[i].saved {
                c = c + 1;
            }
            i = i + 1;
        }
        assert(self.entries@.subrange(0, n as int) =~= self.entries@);
        c
    }

    /// Whether the entry at `i` falls outside the limit, and whether it is a
    /// cleanup candidate at all, given the unsaved counts before it and in all.
    fn classify(&self, i: usize, older: usize, total: usize, policy: RetentionPolicy, limit: usize, now: i64) -> (r: (bool, bool))
        requires
            i < self.entries().len(),
            older == unsaved_count(self.entries().subrange(0, i as int)),
            total == unsaved_count(self.entries()),
        ensures
            r.0 == beyond_limit(self.entries(), i as int, limit as nat),
            r.1 == is_candidate(self.entries(), i as int, policy, limit as nat, now),
    {
        let e = &self.entries[i];
        let beyond = !e.saved && older < total && total - older > limit;
        let aged = match policy.window_seconds() {
            Some(w) => !e.saved && e.file_name.is_some() && (now as i128) - (e.timestamp as i128) > (w as i128),
            None => false,
        };
        (beyond, beyond || aged)
    }

    /// The evictions that cleanup under `policy` and `limit` at time `now`
    /// would make, oldest entry first: the audio files to remove before
    /// calling [`HistoryStore::cleanup_expired`].
    pub fn cleanup_plan(&self, policy: RetentionPolicy, limit: usize, now: i64) -> (r: Vec<Eviction>)
        ensures
            r@ == cleanup_plan_of(self.entries(), policy, limit as nat, now),
    {
        let n = self.entries.len();
        let total = self.count_unsaved();
        let mut older: usize = 0;
        let mut out: Vec<Eviction> = Vec::new();
        let mut i: usize = 0;
        while i < n
            invariant
                n == self.entries@.len(),
                i <= n,
                total == unsaved_count(self.entries@),
                older == unsaved_count(self.entries@.subrange(0, i as int)),
                out@ == plan_upto(self.entries@, i as int, policy, limit as nat, now),
            decreases n - i,
        {
            proof {
                lemma_unsaved_prefix_step(self.entries@, i as int);
                lemma_unsaved_count_bound(self.entries@.subrange(0, i as int));
            }
            let (beyond, candidate) = self.classify(i, older, total, policy, limit, now);
            if candidate {
                let e = &self.entries[i];
                out.push(Eviction { id: e.id, file_name: copy_name(&e.file_name), remove_entry: beyond });
            }
            if !self.entries[i].saved {
                older = older + 1;
            }
            i = i + 1;
        }
        out
    }

    /// Applies retention: each candidate whose audio removal did not fail
    /// (its id is not in `failed`) loses its audio reference, and is removed
    /// entirely when it falls outside the count limit. Saved entries and
    /// entries whose removal failed stay as they are.
    pub fn cleanup_expired(&mut self, policy: RetentionPolicy, limit: usize, now: i64, failed: &Vec<i64>)
        requires
            old(self).wf(),
        ensures
            final(self).wf(),
            final(self).next_id() == old(self).next_id(),
            final(self).recordings_dir() == old(self).recordings_dir(),
            final(self).entries() == cleaned(old(self).entries(), policy, limit as nat, now, failed@),
    {
        let n = self.entries.len();
        let total = self.count_unsaved();
        let mut older: usize = 0;
        let mut out: Vec<HistoryEntry> = Vec::new();
        let mut i: usize = 0;
        while i < n
            invariant
                n == self.entries@.len(),
                i <= n,
                self.wf(),
                total == unsaved_count(self.entries@),
                older == unsaved_count(self.entries@.subrange(0, i as int)),
                out@ == cleaned_upto(self.entries@, i as int, policy, limit as nat, now, failed@),
                ids_increasing(out@),
                i == 0 ==> out@.len() == 0,
                i > 0 ==> forall|j: int| 0 <= j < out@.len() ==> out@[j].id <= self.entries@[i - 1].id,
                timestamps_ordered(out@),
                i > 0 ==> forall|j: int|
                    0 <= j < out@.len() ==> out@[j].timestamp <= self.entries@[i - 1].timestamp,
            decreases n - i,
        {
            proof {
                lemma_unsaved_prefix_step(self.entries@, i as int);
                lemma_unsaved_count_bound(self.entries@.subrange(0, i as int));
            }
            let ghost before = out@;
            let (beyond, candidate) = self.classify(i, older, total, policy, limit, now);
            let e = &self.entries[i];
            if candidate && !id_listed(failed, e.id) {
                if !beyond {
                    out.push(HistoryEntry {
                        id: e.id,
                        text: e.text.clone(),
                        file_name: None,
                        timestamp: e.timestamp,
                        saved: e.saved,
                    });
                }
            } else {
                out.push(e.duplicate());
            }
            assert(out@ =~= before + outcome_at(self.entries@, i as int, policy, limit as nat, now, failed@));
            if !self.entries[i].saved {
                older = older + 1;
            }
            i = i + 1;
        }
        self.entries = out;
    }
}

} // verus!
