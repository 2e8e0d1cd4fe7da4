use vstd::prelude::*;
use crate::history::{window_of, RetentionPolicy};
use crate::store::HistoryEntry;

verus! {

/// What cleanup does to one entry: remove its audio file, and the whole
/// entry too when it falls outside the count limit.
#[derive(Clone, Debug, PartialEq, Eq)]
pub struct Eviction {
    pub id: i64,
    pub file_name: Option<String>,
    pub remove_entry: bool,
}

/// Number of unsaved entries.
pub open spec fn unsaved_count(s: Seq<HistoryEntry>) -> nat
    decreases s.len(),
{
    if s.len() == 0 {
        0
    } else {
        unsaved_count(s.drop_last()) + if s.last().saved {
            0nat
        } else {
            1nat
        }
    }
}

/// The unsaved entry at `i` has at least `limit` newer unsaved entries, so
/// the count limit evicts it (saved entries are exempt and do not count).
pub open spec fn beyond_limit(s: Seq<HistoryEntry>, i: int, limit: nat) -> bool {
    !s[i].saved && unsaved_count(s.subrange(0, i)) + limit < unsaved_count(s)
}

/// An unsaved entry that still has audio and is older than the policy's
/// window at time `now`.
pub open spec fn aged_out(e: HistoryEntry, p: RetentionPolicy, now: i64) -> bool {
    &&& !e.saved
    &&& e.file_name is Some
    &&& match window_of(p) {
        Some(w) => now - e.timestamp > w,
        None => false,
    }
}

pub open spec fn is_candidate(
    s: Seq<HistoryEntry>,
    i: int,
    p: RetentionPolicy,
    limit: nat,
    now: i64,
) -> bool {
    beyond_limit(s, i, limit) || aged_out(s[i], p, now)
}

pub open spec fn eviction_at(s: Seq<HistoryEntry>, i: int, limit: nat) -> Eviction {
    Eviction { id: s[i].id, file_name: s[i].file_name, remove_entry: beyond_limit(s, i, limit) }
}

/// The evictions that cleanup plans among the first `k` entries, oldest first.
pub open spec fn plan_upto(
    s: Seq<HistoryEntry>,
    k: int,
    p: RetentionPolicy,
    limit: nat,
    now: i64,
) -> Seq<Eviction>
    decreases k,
{
    if k <= 0 {
        Seq::empty()
    } else if is_candidate(s, k - 1, p, limit, now) {
        plan_upto(s, k - 1, p, limit, now).push(eviction_at(s, k - 1, limit))
    } else {
        plan_upto(s, k - 1, p, limit, now)
    }
}

pub open spec fn cleanup_plan_of(
    s: Seq<HistoryEntry>,
    p: RetentionPolicy,
    limit: nat,
    now: i64,
) -> Seq<Eviction> {
    plan_upto(s, s.len() as int, p, limit, now)
}

/// The entry without its audio reference.
pub open spec fn cleared(e: HistoryEntry) -> HistoryEntry {
    HistoryEntry { file_name: None, ..e }
}

/// What becomes of the entry at `i`: a candidate whose file removal did not
/// fail is removed when beyond the limit and loses its audio otherwise;
/// every other entry stays as it is.
pub open spec fn outcome_at(
    s: Seq<HistoryEntry>,
    i: int,
    p: RetentionPolicy,
    limit: nat,
    now: i64,
    failed: Seq<i64>,
) -> Seq<HistoryEntry> {
    if is_candidate(s, i, p, limit, now) && !failed.contains(s[i].id) {
        if beyond_limit(s, i, limit) {
            Seq::empty()
        } else {
            seq![cleared(s[i])]
        }
    } else {
        seq![s[i]]
    }
}

pub open spec fn cleaned_upto(
    s: Seq<HistoryEntry>,
    k: int,
    p: RetentionPolicy,
    limit: nat,
    now: i64,
    failed: Seq<i64>,
) -> Seq<HistoryEntry>
    decreases k,
{
    if k <= 0 {
        Seq::empty()
    } else {
        cleaned_upto(s, k - 1, p, limit, now, failed) + outcome_at(s, k - 1, p, limit, now, failed)
    }
}

/// The entries after cleanup, where removing the audio of the ids in
/// `failed` did not succeed.
pub open spec fn cleaned(
    s: Seq<HistoryEntry>,
    p: RetentionPolicy,
    limit: nat,
    now: i64,
    failed: Seq<i64>,
) -> Seq<HistoryEntry> {
    cleaned_upto(s, s.len() as int, p, limit, now, failed)
}

/// Counting over a prefix grows by one entry at a time.
pub proof fn lemma_unsaved_prefix_step(s: Seq<HistoryEntry>, k: int)
    requires
        0 <= k < s.len(),
    ensures
        unsaved_count(s.subrange(0, k + 1)) == unsaved_count(s.subrange(0, k)) + if s[k].saved {
            0nat
        } else {
            1nat
        },
{
    assert(s.subrange(0, k + 1).drop_last() =~= s.subrange(0, k));
}

pub proof fn lemma_unsaved_count_bound(s: Seq<HistoryEntry>)
    ensures
        unsaved_count(s) <= s.len(),
    decreases s.len(),
{
    if s.len() > 0 {
        lemma_unsaved_count_bound(s.drop_last());
    }
}

/// Where no entry is a candidate, cleanup changes nothing.
proof fn lemma_cleaned_identity(
    s: Seq<HistoryEntry>,
    k: int,
    p: RetentionPolicy,
    limit: nat,
    now: i64,
    failed: Seq<i64>,
)
    requires
        0 <= k <= s.len(),
        forall|i: int| 0 <= i < s.len() ==> !is_candidate(s, i, p, limit, now),
    ensures
        cleaned_upto(s, k, p, limit, now, failed) == s.subrange(0, k),
    decreases k,
{
    if k > 0 {
        lemma_cleaned_identity(s, k - 1, p, limit, now, failed);
        assert(s.subrange(0, k - 1) + seq![s[k - 1]] =~= s.subrange(0, k));
    }
}

proof fn lemma_unsaved_count_append(a: Seq<HistoryEntry>, b: Seq<HistoryEntry>)
    requires
        b.len() <= 1,
    ensures
        unsaved_count(a + b) == unsaved_count(a) + unsaved_count(b),
{
    if b.len() == 0 {
        assert(a + b =~= a);
    } else {
        assert((a + b).drop_last() =~= a);
        assert((a + b).last() == b.last());
        assert(b.drop_last() =~= Seq::<HistoryEntry>::empty());
        assert(unsaved_count(b.drop_last()) == 0);
    }
}

/// With every removal successful, the first `k` entries keep exactly those
/// unsaved entries that come after the first `total - limit` unsaved ones,
/// and none of what they keep has aged out.
proof fn lemma_cleaned_shape(
    s: Seq<HistoryEntry>,
    k: int,
    p: RetentionPolicy,
    limit: nat,
    now: i64,
)
    requires
        0 <= k <= s.len(),
    ensures
        ({
            let c = cleaned_upto(s, k, p, limit, now, Seq::empty());
            let pc = unsaved_count(s.subrange(0, k));
            let d: int = if unsaved_count(s) > limit {
                unsaved_count(s) - limit
            } else {
                0
            };
            &&& unsaved_count(c) == if pc > d {
                pc - d
            } else {
                0
            }
            &&& forall|j: int| 0 <= j < c.len() ==> !aged_out(#[trigger] c[j], p, now)
        }),
    decreases k,
{
    if k == 0 {
        assert(s.subrange(0, 0) =~= Seq::<HistoryEntry>::empty());
    } else {
        lemma_cleaned_shape(s, k - 1, p, limit, now);
        lemma_unsaved_prefix_step(s, k - 1);
        let prev = cleaned_upto(s, k - 1, p, limit, now, Seq::empty());
        let o = outcome_at(s, k - 1, p, limit, now, Seq::empty());
        lemma_unsaved_count_append(prev, o);
        if o.len() == 1 {
            assert(o.drop_last() =~= Seq::<HistoryEntry>::empty());
            assert(unsaved_count(o.drop_last()) == 0);
            assert(o.last().saved == s[k - 1].saved);
        } else {
            assert(unsaved_count(o) == 0);
        }
        let c = prev + o;
        assert forall|j: int| 0 <= j < c.len() implies !aged_out(#[trigger] c[j], p, now) by {
            if j >= prev.len() {
                assert(c[j] == o[j - prev.len()]);
            } else {
                assert(c[j] == prev[j]);
            }
        }
    }
}

/// Running cleanup a second time, with nothing changed in between and every
/// file removal successful, leaves the entries as the first run left them.
pub proof fn lemma_cleanup_idempotent(
    s: Seq<HistoryEntry>,
    p: RetentionPolicy,
    limit: nat,
    now: i64,
)
    ensures
        cleaned(cleaned(s, p, limit, now, Seq::empty()), p, limit, now, Seq::empty()) == cleaned(
            s,
            p,
            limit,
            now,
            Seq::empty(),
        ),
{
    let c = cleaned(s, p, limit, now, Seq::empty());
    lemma_cleaned_shape(s, s.len() as int, p, limit, now);
    assert(s.subrange(0, s.len() as int) =~= s);
    assert forall|i: int| 0 <= i < c.len() implies !is_candidate(c, i, p, limit, now) by {
        assert(!aged_out(c[i], p, now));
    }
    lemma_cleaned_identity(c, c.len() as int, p, limit, now, Seq::empty());
    assert(c.subrange(0, c.len() as int) =~= c);
}

/// A saved entry is never a cleanup candidate, and cleanup keeps it as it
/// is, whatever its age, its place in the count limit, or which removals
/// failed.
pub proof fn lemma_saved_exempt(
    s: Seq<HistoryEntry>,
    i: int,
    p: RetentionPolicy,
    limit: nat,
    now: i64,
    failed: Seq<i64>,
)
    requires
        0 <= i < s.len(),
        s[i].saved,
    ensures
        !is_candidate(s, i, p, limit, now),
        cleaned(s, p, limit, now, failed).contains(s[i]),
{
    lemma_saved_kept(s, s.len() as int, i, p, limit, now, failed);
}

proof fn lemma_saved_kept(
    s: Seq<HistoryEntry>,
    k: int,
    i: int,
    p: RetentionPolicy,
    limit: nat,
    now: i64,
    failed: Seq<i64>,
)
    requires
        0 <= i < k <= s.len(),
        s[i].saved,
    ensures
        cleaned_upto(s, k, p, limit, now, failed).contains(s[i]),
    decreases k,
{
    let prev = cleaned_upto(s, k - 1, p, limit, now, failed);
    let o = outcome_at(s, k - 1, p, limit, now, failed);
    if i == k - 1 {
        assert((prev + o)[prev.len() as int] == s[i]);
    } else {
        lemma_saved_kept(s, k - 1, i, p, limit, now, failed);
        let j = choose|j: int| 0 <= j < prev.len() && prev[j] == s[i];
        assert((prev + o)[j] == s[i]);
    }
}

} // verus!
