//! Reading of human-written dates, through the `dateparser` crate.
use vstd::prelude::*;
use crate::text::{is_space, spec_is_space};

verus! {

pub open spec fn is_digit(c: char) -> bool {
    '0' <= c && c <= '9'
}

pub open spec fn digit_value(c: char) -> int {
    c as int - '0' as int
}

/// At `p` stands a time-zone offset of a day or more: a sign and two digits that give 24
/// hours or more, where a zone may begin (after whitespace, or after a full date).
pub open spec fn day_long_offset_at(s: Seq<char>, p: int) -> bool {
    &&& 0 <= p
    &&& p + 2 < s.len()
    &&& (s[p] == '+' || s[p] == '-')
    &&& is_digit(s[p + 1])
    &&& is_digit(s[p + 2])
    &&& 10 * digit_value(s[p + 1]) + digit_value(s[p + 2]) >= 24
    &&& (p >= 10 || (p > 0 && spec_is_space(s[p - 1])))
}

/// `s` names a time-zone offset of a day or more, which the date parser cannot represent.
pub open spec fn has_day_long_offset(s: Seq<char>) -> bool {
    exists|p: int| day_long_offset_at(s, p)
}

/// Whether `s` names a time-zone offset of a day or more.
pub fn day_long_offset(s: &str) -> (r: bool)
    ensures
        r == has_day_long_offset(s@),
{
    let n = s.unicode_len();
    let mut p: usize = 0;
    while n >= 3 && p < n - 2
        invariant
            n == s@.len(),
            forall|q: int| 0 <= q < p ==> !#[trigger] day_long_offset_at(s@, q),
        decreases n - p,
    {
        let c = s.get_char(p);
        let d1 = s.get_char(p + 1);
        let d2 = s.get_char(p + 2);
        if (c == '+' || c == '-') && '0' <= d1 && d1 <= '9' && '0' <= d2 && d2 <= '9' {
            let hours = 10 * (d1 as u32 - '0' as u32) + (d2 as u32 - '0' as u32);
            let starts_zone = p >= 10 || (p > 0 && is_space(s.get_char(p - 1)));
            if hours >= 24 && starts_zone {
                assert(day_long_offset_at(s@, p as int));
                return true;
            }
        }
        p = p + 1;
    }
    assert forall|q: int| !#[trigger] day_long_offset_at(s@, q) by {
        if 0 <= q < p {
        }
    }
    false
}

/// Relies on `dateparser::parse`, which reads a date in many human formats (in the
/// machine's local time zone where the text names none), and on chrono's `to_rfc3339`.
/// The outcome depends on the time zone and on the current time, so nothing is promised of
/// it. `dateparser::parse` panics (in chrono's `FixedOffset::east`) on an offset of a day or
/// more, which the precondition leaves out.
#[verifier::external_body]
pub(crate) fn parse_datetime(s: &str) -> (r: Option<String>)
    requires
        !has_day_long_offset(s@),
{
    match dateparser::parse(s) {
        Ok(d) => Some(d.to_rfc3339()),
        Err(_) => None,
    }
}

} // verus!
