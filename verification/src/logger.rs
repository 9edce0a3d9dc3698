//! Log verbosity selection.
use crate::text::{chars_of, lower, lower_chars};
use vstd::prelude::*;

verus! {

/// Maximum log verbosity, ordered from silent to most detailed.
#[derive(Debug, Clone, Copy, PartialEq, Eq, Structural)]
pub enum LogLevel {
    Off,
    Error,
    Warn,
    Info,
    Debug,
    Trace,
}

/// Level named by `name`, ignoring ASCII case; anything unknown is
/// `Info`, the safe default for production use.
pub open spec fn level_named(name: Seq<char>) -> LogLevel {
    let l = lower(name);
    if l == "trace"@ {
        LogLevel::Trace
    } else if l == "debug"@ {
        LogLevel::Debug
    } else if l == "warn"@ || l == "warning"@ {
        LogLevel::Warn
    } else if l == "error"@ {
        LogLevel::Error
    } else if l == "off"@ {
        LogLevel::Off
    } else {
        LogLevel::Info
    }
}

fn equals_text(a: &Vec<char>, b: &str) -> (r: bool)
    ensures
        r == (a@ == b@),
{
    let bc = chars_of(b);
    if a.len() != bc.len() {
        return false;
    }
    let mut i: usize = 0;
    while i < a.len()
        invariant
            a@.len() == bc@.len(),
            bc@ == b@,
            i <= a@.len(),
            forall|j: int| 0 <= j < i ==> a@[j] == bc@[j],
        decreases a.len() - i,
    {
        if a[i] != bc[i] {
            return false;
        }
        i += 1;
    }
    assert(a@ =~= bc@);
    true
}

/// Parses a log level name (for instance from configuration).
pub fn level_from_str(name: &str) -> (level: LogLevel)
    ensures
        level == level_named(name@),
{
    let chars = chars_of(name);
    let l = lower_chars(&chars);
    if equals_text(&l, "trace") {
        LogLevel::Trace
    } else if equals_text(&l, "debug") {
        LogLevel::Debug
    } else if equals_text(&l, "warn") || equals_text(&l, "warning") {
        LogLevel::Warn
    } else if equals_text(&l, "error") {
        LogLevel::Error
    } else if equals_text(&l, "off") {
        LogLevel::Off
    } else {
        LogLevel::Info
    }
}

/// Letter-case law: a name and its lower-case form select the same level,
/// and a name that is none of the known ones selects `Info`.
pub proof fn lemma_level_ignores_case(name: Seq<char>)
    ensures
        level_named(lower(name)) == level_named(name),
        lower(name) != "trace"@ && lower(name) != "debug"@ && lower(name) != "warn"@ && lower(name)
            != "warning"@ && lower(name) != "error"@ && lower(name) != "off"@ ==> level_named(name)
            == LogLevel::Info,
{
    assert(lower(lower(name)) =~= lower(name)) by {
        assert forall|i: int| 0 <= i < name.len() implies #[trigger] lower(lower(name))[i] == lower(
            name,
        )[i] by {
            let c = name[i];
            let l = crate::text::ascii_lower(c);
            assert(crate::text::ascii_lower(l) == l) by {
                if 'A' as u32 <= c as u32 <= 'Z' as u32 {
                    assert(l as u32 == c as u32 + 32);
                }
            }
        }
    }
}

} // verus!
