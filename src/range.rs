//! The `start,end` timestamp-range filter.
use vstd::prelude::*;

use crate::reading::{instant_after, UtcTimestamp};
use crate::text::{find_first, trim_text, trimmed};

verus! {

/// Bounds of a time window, in UTC; `None` leaves that side open.
pub type TimestampRange = (Option<UtcTimestamp>, Option<UtcTimestamp>);

/// The instant (epoch seconds, nanoseconds) that an RFC 3339 date-time text
/// names, or `None` when the text is not such a date-time with an offset.
pub uninterp spec fn rfc3339_instant(s: Seq<char>) -> Option<(int, int)>;

/// Relies on `chrono::DateTime::parse_from_rfc3339`: it accepts or refuses the
/// text, and names an instant, from the text alone; `timestamp` and
/// `timestamp_subsec_nanos` read that instant in UTC.
#[verifier::external_body]
fn parse_rfc3339(s: &str) -> (r: Option<UtcTimestamp>)
    ensures
        r matches Some(t) ==> rfc3339_instant(s@) == Some(t.instant()),
        r is None ==> rfc3339_instant(s@) is None,
{
    match chrono::DateTime::parse_from_rfc3339(s) {
        Ok(d) => Some(UtcTimestamp { secs: d.timestamp(), nanos: d.timestamp_subsec_nanos() }),
        Err(_) => None,
    }
}

/// An optional timestamp as an optional instant.
pub open spec fn opt_instant(t: Option<UtcTimestamp>) -> Option<(int, int)> {
    match t {
        Some(x) => Some(x.instant()),
        None => None,
    }
}

/// One side of the range: an empty token is open, any other must be an
/// RFC 3339 date-time (`None`: the side is invalid).
pub open spec fn bound_of(tok: Seq<char>) -> Option<Option<(int, int)>> {
    if tok.len() == 0 {
        Some(None)
    } else {
        match rfc3339_instant(tok) {
            Some(p) => Some(Some(p)),
            None => None,
        }
    }
}

/// The two tokens of a range text: the trimmed text split at its first comma,
/// each side trimmed; `None` when there is no comma.
pub open spec fn range_tokens(s: Seq<char>) -> Option<(Seq<char>, Seq<char>)> {
    let t = trimmed(s);
    match t.index_of_first(',') {
        Some(i) => Some((trimmed(t.subrange(0, i)), trimmed(t.subrange(i + 1, t.len() as int)))),
        None => None,
    }
}

/// Two parsed bounds form a range unless both are present and the start lies after the end.
pub open spec fn ordered_range(start: Option<(int, int)>, end: Option<(int, int)>) -> Option<
    (Option<(int, int)>, Option<(int, int)>),
> {
    match (start, end) {
        (Some(a), Some(b)) => if instant_after(a, b) {
            None
        } else {
            Some((start, end))
        },
        _ => Some((start, end)),
    }
}

/// What a range text denotes: `None` without a comma, with an invalid side,
/// or with the start after the end.
pub open spec fn range_of(s: Seq<char>) -> Option<(Option<(int, int)>, Option<(int, int)>)> {
    match range_tokens(s) {
        Some((a, b)) => match (bound_of(a), bound_of(b)) {
            (Some(start), Some(end)) => ordered_range(start, end),
            _ => None,
        },
        None => None,
    }
}

/// A parsed range as a pair of optional instants.
pub open spec fn range_view(r: TimestampRange) -> (Option<(int, int)>, Option<(int, int)>) {
    (opt_instant(r.0), opt_instant(r.1))
}

/// Splits a range text into its start and end tokens, trimmed.
pub fn split_range(s: &str) -> (r: Option<(&str, &str)>)
    ensures
        r matches Some(p) ==> range_tokens(s@) == Some((p.0@, p.1@)),
        r is None ==> range_tokens(s@) is None,
{
    let t = trim_text(s);
    match find_first(t, ',') {
        Some(i) => {
            let n = t.unicode_len();
            let a = trim_text(t.substring_char(0, i));
            let b = trim_text(t.substring_char(i + 1, n));
            Some((a, b))
        },
        None => None,
    }
}

/// Accepts two bounds as a range unless the start lies after the end.
pub fn checked_range(start: Option<UtcTimestamp>, end: Option<UtcTimestamp>) -> (r: Option<
    TimestampRange,
>)
    ensures
        r matches Some(p) ==> ordered_range(opt_instant(start), opt_instant(end)) == Some(
            range_view(p),
        ) && p == (start, end),
        r is None ==> ordered_range(opt_instant(start), opt_instant(end)) is None,
{
    match (start, end) {
        (Some(a), Some(b)) => {
            if a.is_after(&b) {
                return None;
            }
        },
        _ => {},
    }
    Some((start, end))
}

/// Parses one side of a range: empty is open, otherwise an RFC 3339 date-time.
fn parse_bound(tok: &str) -> (r: Option<Option<UtcTimestamp>>)
    ensures
        r matches Some(b) ==> bound_of(tok@) == Some(opt_instant(b)),
        r is None ==> bound_of(tok@) is None,
{
    if tok.is_empty() {
        Some(None)
    } else {
        match parse_rfc3339(tok) {
            Some(t) => Some(Some(t)),
            None => None,
        }
    }
}

/// Parses `"start,end"` into UTC bounds; either side may be empty (open).
/// `None` when there is no comma, when a non-empty side is not an RFC 3339
/// date-time with an offset, or when the start lies after the end.
pub fn parse_timestamp_range(s: &str) -> (r: Option<TimestampRange>)
    ensures
        r matches Some(p) ==> range_of(s@) == Some(range_view(p)),
        r is None ==> range_of(s@) is None,
{
    let (a, b) = match split_range(s) {
        Some(p) => p,
        None => return None,
    };
    let start = match parse_bound(a) {
        Some(x) => x,
        None => return None,
    };
    let end = match parse_bound(b) {
        Some(x) => x,
        None => return None,
    };
    checked_range(start, end)
}

} // verus!
