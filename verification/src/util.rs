//! Utility functions that do not fit anywhere else.

use chrono::Utc;
use timediff::TimeDiff;
use vstd::prelude::*;

use crate::text::{decimal, push_decimal, string_from_chars};

verus! {

/// The phrase ("in 3 days", "a few seconds ago") that timediff's English
/// locale gives for a duration written like `-10s`, if it can read it.
pub uninterp spec fn timediff_phrase(duration: Seq<char>) -> Option<Seq<char>>;

/// Calls `TimeDiff::to_diff(duration).parse()` (timediff 0.2). The claim is
/// that the phrase is a function of the duration text.
#[verifier::external_body]
fn timediff_parse(duration: String) -> (res: Option<String>)
    ensures
        match res {
            Some(p) => timediff_phrase(duration@) == Some(p@),
            None => timediff_phrase(duration@) is None,
        },
{
    TimeDiff::to_diff(duration).parse().ok()
}

/// The duration text for the difference of two times in seconds, e.g. `-10s`.
pub open spec fn duration_text(timestamp: i64, now: i64) -> Seq<char> {
    decimal(timestamp - now) + seq!['s']
}

/// The duration text for `timestamp` seen at `now`.
fn duration_string(timestamp: i64, now: i64) -> (res: String)
    requires
        i64::MIN <= timestamp - now <= i64::MAX,
    ensures
        res@ == duration_text(timestamp, now),
{
    let mut out: Vec<char> = Vec::new();
    push_decimal(&mut out, timestamp - now);
    out.push('s');
    string_from_chars(&out)
}

/// How long ago (or how far ahead) `timestamp` is, seen at `now`, in words.
pub fn human_relative_time_at(timestamp: i64, now: i64) -> (res: String)
    requires
        i64::MIN <= timestamp - now <= i64::MAX,
        timediff_phrase(duration_text(timestamp, now)) is Some,
    ensures
        timediff_phrase(duration_text(timestamp, now)) == Some(res@),
{
    match timediff_parse(duration_string(timestamp, now)) {
        Some(p) => p,
        None => String::new(),
    }
}

/// Like `human_relative_time_at`, or `None` when the difference cannot be
/// put in words.
pub fn try_human_relative_time_at(timestamp: i64, now: i64) -> (res: Option<String>)
    requires
        i64::MIN <= timestamp - now <= i64::MAX,
    ensures
        match res {
            Some(p) => timediff_phrase(duration_text(timestamp, now)) == Some(p@),
            None => timediff_phrase(duration_text(timestamp, now)) is None,
        },
{
    match timediff_parse(duration_string(timestamp, now)) {
        Some(_) => Some(human_relative_time_at(timestamp, now)),
        None => None,
    }
}

/// The current time in seconds since the Unix epoch, from
/// `Utc::now().timestamp()` (chrono 0.4). It depends on the clock, so
/// nothing is claimed of it.
#[verifier::external_body]
fn now_timestamp() -> (res: i64) {
    Utc::now().timestamp()
}

/// How `timestamp` is put in words when the clock shows `now`: `None` when
/// the difference does not fit in an `i64` or cannot be put in words.
pub open spec fn relative_time_seen_at(timestamp: i64, now: i64) -> Option<Seq<char>> {
    if i64::MIN <= timestamp - now <= i64::MAX {
        timediff_phrase(duration_text(timestamp, now))
    } else {
        None
    }
}

/// How long ago (or how far ahead) `timestamp` is, in words, as seen at the
/// current time; `None` when the difference cannot be put in words.
pub fn human_relative_time(timestamp: i64) -> (res: Option<String>)
    ensures
        exists|now: i64|
            #[trigger] relative_time_seen_at(timestamp, now) == match res {
                Some(p) => Some(p@),
                None => None,
            },
{
    let now = now_timestamp();
    let res = match timestamp.checked_sub(now) {
        Some(_) => try_human_relative_time_at(timestamp, now),
        None => None,
    };
    assert(relative_time_seen_at(timestamp, now) == match res {
        Some(p) => Some(p@),
        None => None::<Seq<char>>,
    });
    res
}

} // verus!
