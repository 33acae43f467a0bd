//! The interval between two automatic updates, as the settings spell it.

use crate::text::{chars_of, is_digit, matches_at, has_prefix, str_eq};
use vstd::prelude::*;
use vstd::string::*;

verus! {

/// The value of one character as a decimal digit; `0` for any other
/// character.
pub open spec fn digit_value(c: char) -> nat {
    if is_digit(c) {
        (c as int - 48) as nat
    } else {
        0
    }
}

/// The number that a run of decimal digits writes.
pub open spec fn digits_value(s: Seq<char>) -> nat
    decreases s.len(),
{
    if s.len() == 0 {
        0
    } else {
        digits_value(s.drop_last()) * 10 + digit_value(s.last())
    }
}

/// Whether every character is a decimal digit.
pub open spec fn all_digits(s: Seq<char>) -> bool {
    forall|i: int| 0 <= i < s.len() ==> is_digit(#[trigger] s[i])
}

/// The text without a plus sign at its head.
pub open spec fn unsigned_body(s: Seq<char>) -> Seq<char> {
    if s.len() > 0 && s[0] == '+' {
        s.skip(1)
    } else {
        s
    }
}

/// The number that a text writes, as the standard library reads an unsigned
/// 64-bit number: decimal digits, at least one, with at most one plus sign
/// before them and nothing else; `None` for any other text and for a number
/// above `u64::MAX`.
pub open spec fn parsed_u64(s: Seq<char>) -> Option<u64> {
    let body = unsigned_body(s);
    if body.len() > 0 && all_digits(body) && digits_value(body) <= u64::MAX {
        Some(digits_value(body) as u64)
    } else {
        None
    }
}

proof fn lemma_digits_value_grows(s: Seq<char>, k: int)
    requires
        0 <= k <= s.len(),
    ensures
        digits_value(s.take(k)) <= digits_value(s),
    decreases s.len() - k,
{
    if k < s.len() {
        let next = s.take(k + 1);
        assert(next.drop_last() =~= s.take(k));
        lemma_digits_value_grows(s, k + 1);
    } else {
        assert(s.take(k) =~= s);
    }
}

/// Reads the characters from `from` on as an unsigned number.
#[verifier::loop_isolation(false)]
pub fn parse_u64_from(chars: &Vec<char>, from: usize) -> (r: Option<u64>)
    ensures
        r == parsed_u64(chars@.skip(if from <= chars.len() {
            from as int
        } else {
            chars.len() as int
        })),
{
    let start: usize = if from <= chars.len() {
        from
    } else {
        chars.len()
    };
    let ghost text = chars@.skip(start as int);
    let first: usize = if start < chars.len() && chars[start] == '+' {
        start + 1
    } else {
        start
    };
    let ghost body = unsigned_body(text);
    if first >= chars.len() {
        return None;
    }
    let mut value: u64 = 0;
    let mut i: usize = first;
    while i < chars.len()
        invariant
            first <= i <= chars.len(),
            body == chars@.skip(first as int),
            value == digits_value(body.take(i - first)),
            all_digits(body.take(i - first)),
        decreases chars.len() - i,
    {
        let c = chars[i];
        let ghost now = body.take(i - first + 1);
        proof {
            assert(now.drop_last() =~= body.take(i - first));
            assert(now.last() == c);
        }
        if !(c >= '0' && c <= '9') {
            return None;
        }
        let d: u64 = (c as u64) - 48;
        if value > (u64::MAX - d) / 10 {
            proof {
                lemma_digits_value_grows(body, i - first + 1);
            }
            return None;
        }
        value = value * 10 + d;
        i += 1;
        assert forall|j: int| 0 <= j < now.len() implies is_digit(#[trigger] now[j]) by {}
    }
    assert(body.take(chars.len() - first) =~= body);
    Some(value)
}

/// Reads a text as an unsigned number.
pub fn parse_u64(s: &str) -> (r: Option<u64>)
    ensures
        r == parsed_u64(s@),
{
    let chars = chars_of(s);
    assert(chars@.skip(0) =~= s@);
    parse_u64_from(&chars, 0)
}

/// The seconds between two automatic updates that a setting asks for; `None`
/// where it switches them off or cannot be read.
pub open spec fn update_interval(s: Seq<char>) -> Option<u64> {
    if s == "24h"@ || s == "1d"@ {
        Some(86400)
    } else if s == "7d"@ || s == "1w"@ {
        Some(604800)
    } else if s == "1h"@ {
        Some(3600)
    } else if s == "6h"@ {
        Some(21600)
    } else if s == "off"@ {
        None
    } else if has_prefix(s, "custom:"@) {
        parsed_u64(s.skip("custom:"@.len() as int))
    } else {
        parsed_u64(s)
    }
}

/// What the scheduler of automatic updates does next.
#[derive(Debug, Clone, Copy, PartialEq, Eq, Structural)]
pub enum SchedulerStep {
    /// Wait this many seconds and look again.
    Sleep(u64),
    /// Run the update now.
    RunUpdate,
}

/// The seconds that the scheduler waits while automatic updates are
/// switched off.
pub const IDLE_SLEEP_SECS: u64 = 300;

/// The most seconds that the scheduler waits before it looks again.
pub const MAX_SLEEP_SECS: u64 = 60;

/// The seconds since the last automatic update; the whole interval where
/// there was none yet, and `0` where the clock stands before it.
pub open spec fn elapsed_secs(interval: u64, now: u64, last: u64) -> u64 {
    if last == 0 {
        interval
    } else if now >= last {
        (now - last) as u64
    } else {
        0
    }
}

/// The next step of the scheduler: an update where the interval has passed,
/// else a wait until it has, of a minute at most; a wait of five minutes
/// where updates are switched off.
pub open spec fn scheduler_step(interval: Option<u64>, now: u64, last: u64) -> SchedulerStep {
    match interval {
        None => SchedulerStep::Sleep(IDLE_SLEEP_SECS),
        Some(secs) => {
            let elapsed = elapsed_secs(secs, now, last);
            if elapsed >= secs {
                SchedulerStep::RunUpdate
            } else if secs - elapsed < MAX_SLEEP_SECS {
                SchedulerStep::Sleep((secs - elapsed) as u64)
            } else {
                SchedulerStep::Sleep(MAX_SLEEP_SECS)
            }
        },
    }
}

/// Decides what the scheduler does next. `interval_raw` is the interval of
/// the settings, `now` the time and `last_update` the time of the last
/// automatic update, both in seconds since the Unix epoch; `0` stands for no
/// update yet.
pub fn next_scheduler_step(interval_raw: &str, now: u64, last_update: u64) -> (r: SchedulerStep)
    ensures
        r == scheduler_step(update_interval(interval_raw@), now, last_update),
{
    let interval = match parse_update_interval(interval_raw) {
        Some(secs) => secs,
        None => {
            return SchedulerStep::Sleep(IDLE_SLEEP_SECS);
        },
    };
    let elapsed = if last_update == 0 {
        interval
    } else {
        now.saturating_sub(last_update)
    };
    if elapsed >= interval {
        return SchedulerStep::RunUpdate;
    }
    let remaining = interval - elapsed;
    if remaining < MAX_SLEEP_SECS {
        SchedulerStep::Sleep(remaining)
    } else {
        SchedulerStep::Sleep(MAX_SLEEP_SECS)
    }
}

/// Reads the update interval of the settings: one of the names `1h`, `6h`,
/// `24h`, `1d`, `7d`, `1w` and `off`, or a number of seconds, alone or after
/// `custom:`.
pub fn parse_update_interval(interval_raw: &str) -> (r: Option<u64>)
    ensures
        r == update_interval(interval_raw@),
{
    if str_eq(interval_raw, "24h") || str_eq(interval_raw, "1d") {
        return Some(86400);
    }
    if str_eq(interval_raw, "7d") || str_eq(interval_raw, "1w") {
        return Some(604800);
    }
    if str_eq(interval_raw, "1h") {
        return Some(3600);
    }
    if str_eq(interval_raw, "6h") {
        return Some(21600);
    }
    if str_eq(interval_raw, "off") {
        return None;
    }
    let chars = chars_of(interval_raw);
    let prefix = chars_of("custom:");
    if matches_at(&chars, &prefix, 0) {
        parse_u64_from(&chars, prefix.len())
    } else {
        assert(chars@.skip(0) =~= interval_raw@);
        parse_u64_from(&chars, 0)
    }
}

} // verus!
