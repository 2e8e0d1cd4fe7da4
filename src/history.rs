use vstd::prelude::*;

verus! {

/// How long unsaved recordings keep their audio.
#[derive(Clone, Copy, Debug, PartialEq, Eq, Structural)]
pub enum RetentionPolicy {
    Never,
    PreserveLimit,
    Days3,
    Weeks2,
    Months3,
}

/// A setting that cannot be used as it is.
#[derive(Clone, Debug, PartialEq, Eq)]
pub enum ConfigError {
    /// The retention token names none of the five policies.
    InvalidRetentionPeriod(String),
}

pub const SECONDS_PER_DAY: i64 = 86400;

/// The age window of a time-based policy, in seconds.
pub open spec fn window_of(p: RetentionPolicy) -> Option<int> {
    match p {
        RetentionPolicy::Days3 => Some((3 * 86400) as int),
        RetentionPolicy::Weeks2 => Some((14 * 86400) as int),
        RetentionPolicy::Months3 => Some((90 * 86400) as int),
        _ => None,
    }
}

/// The policy that a settings token names, if any.
pub open spec fn policy_of_token(t: Seq<char>) -> Option<RetentionPolicy> {
    if t == "never"@ {
        Some(RetentionPolicy::Never)
    } else if t == "preserve_limit"@ {
        Some(RetentionPolicy::PreserveLimit)
    } else if t == "days3"@ {
        Some(RetentionPolicy::Days3)
    } else if t == "weeks2"@ {
        Some(RetentionPolicy::Weeks2)
    } else if t == "months3"@ {
        Some(RetentionPolicy::Months3)
    } else {
        None
    }
}

impl RetentionPolicy {
    /// The age window in seconds, or `None` when age never removes audio.
    pub fn window_seconds(self) -> (r: Option<i64>)
        ensures
            match r {
                Some(w) => window_of(self) == Some(w as int),
                None => window_of(self) is None,
            },
    {
        match self {
            RetentionPolicy::Days3 => Some(3 * SECONDS_PER_DAY),
            RetentionPolicy::Weeks2 => Some(14 * SECONDS_PER_DAY),
            RetentionPolicy::Months3 => Some(90 * SECONDS_PER_DAY),
            _ => None,
        }
    }

    /// The lowercase settings token of this policy, which reads back as it.
    pub fn token(self) -> (r: String)
        ensures
            policy_of_token(r@) == Some(self),
    {
        proof {
            reveal_strlit("never");
            reveal_strlit("preserve_limit");
            reveal_strlit("days3");
            reveal_strlit("weeks2");
            reveal_strlit("months3");
        }
        match self {
            RetentionPolicy::Never => {
                let t = String::from_str("never");
                assert(t@ == "never"@);
                t
            },
            RetentionPolicy::PreserveLimit => {
                let t = String::from_str("preserve_limit");
                assert(t@ == "preserve_limit"@);
                assert("preserve_limit"@[0] == 'p' && "never"@[0] == 'n');
                t
            },
            RetentionPolicy::Days3 => {
                let t = String::from_str("days3");
                assert(t@ == "days3"@);
                assert("days3"@[0] == 'd' && "never"@[0] == 'n');
                t
            },
            RetentionPolicy::Weeks2 => {
                let t = String::from_str("weeks2");
                assert(t@ == "weeks2"@);
                assert("weeks2"@[0] == 'w' && "never"@[0] == 'n');
                t
            },
            RetentionPolicy::Months3 => {
                let t = String::from_str("months3");
                assert(t@ == "months3"@);
                assert("months3"@[0] == 'm' && "never"@[0] == 'n');
                t
            },
        }
    }

    /// Reads a policy from its lowercase settings token; any other token is
    /// a configuration error.
    pub fn from_token(token: &String) -> (r: Result<RetentionPolicy, ConfigError>)
        ensures
            match policy_of_token(token@) {
                Some(p) => r == Ok::<RetentionPolicy, ConfigError>(p),
                None => r == Err::<RetentionPolicy, ConfigError>(
                    ConfigError::InvalidRetentionPeriod(*token),
                ),
            },
    {
        if *token == String::from_str("never") {
            Ok(RetentionPolicy::Never)
        } else if *token == String::from_str("preserve_limit") {
            Ok(RetentionPolicy::PreserveLimit)
        } else if *token == String::from_str("days3") {
            Ok(RetentionPolicy::Days3)
        } else if *token == String::from_str("weeks2") {
            Ok(RetentionPolicy::Weeks2)
        } else if *token == String::from_str("months3") {
            Ok(RetentionPolicy::Months3)
        } else {
            Err(ConfigError::InvalidRetentionPeriod(token.clone()))
        }
    }
}

} // verus!
