//! Fresh worker ids and timestamps.
use vstd::prelude::*;

verus! {

/// A lower-case hexadecimal digit.
pub open spec fn is_lower_hex(c: char) -> bool {
    ('0' <= c && c <= '9') || ('a' <= c && c <= 'f')
}

/// The text of a random (version 4) UUID in hyphenated lower-case form,
/// such as `67e55044-10b1-426f-9247-bb680e5fe0c8`.
pub open spec fn is_v4_uuid_text(s: Seq<char>) -> bool {
    &&& s.len() == 36
    &&& forall|i: int|
        0 <= i < 36 ==> if i == 8 || i == 13 || i == 18 || i == 23 {
            s[i] == '-'
        } else {
            is_lower_hex(#[trigger] s[i])
        }
    &&& s[14] == '4'
    &&& (s[19] == '8' || s[19] == '9' || s[19] == 'a' || s[19] == 'b')
}

/// An ASCII decimal digit.
pub open spec fn is_ascii_digit(c: char) -> bool {
    '0' <= c && c <= '9'
}

/// `s[from..to]` is all digits.
pub open spec fn digits_between(s: Seq<char>, from: int, to: int) -> bool {
    forall|i: int| from <= i < to ==> is_ascii_digit(#[trigger] s[i])
}

/// The layout `YYYY-MM-DDTHH:MM:SS<fraction>+00:00` with a fraction of
/// `frac_len` characters (none, or `.` and 3, 6 or 9 digits). A year past
/// 9999 is written with a `+` and at least five digits.
pub open spec fn utc_stamp_layout(s: Seq<char>, frac_len: int) -> bool {
    let n = s.len() as int;
    let e = n - 6 - frac_len;
    &&& e >= 19
    &&& s.subrange(n - 6, n) == seq!['+', '0', '0', ':', '0', '0']
    &&& frac_len > 0 ==> s[e] == '.' && digits_between(s, e + 1, e + frac_len)
    &&& digits_between(s, e - 2, e) && s[e - 3] == ':' && digits_between(s, e - 5, e - 3)
    &&& s[e - 6] == ':' && digits_between(s, e - 8, e - 6) && s[e - 9] == 'T'
    &&& digits_between(s, e - 11, e - 9) && s[e - 12] == '-' && digits_between(s, e - 14, e - 12)
    &&& s[e - 15] == '-'
    &&& (e - 15 == 4 && digits_between(s, 0, 4)) || (e - 15 >= 6 && s[0] == '+' && digits_between(
        s,
        1,
        e - 15,
    ))
}

/// An RFC 3339 timestamp in UTC as chrono writes it: date, `T`, time with
/// the fraction of a second when it is not zero, and the offset `+00:00`.
pub open spec fn is_utc_stamp(s: Seq<char>) -> bool {
    ||| utc_stamp_layout(s, 0)
    ||| utc_stamp_layout(s, 4)
    ||| utc_stamp_layout(s, 7)
    ||| utc_stamp_layout(s, 10)
}

/// A fresh random worker id.
///
/// Trusted: calls `uuid::Uuid::new_v4` and formats it with `to_string`; claims
/// the hyphenated lower-case form with the version digit `4` and the RFC 9562
/// variant, which `new_v4` sets and uuid's `Display` writes.
#[verifier::external_body]
pub(crate) fn new_worker_id() -> (res: String)
    ensures
        is_v4_uuid_text(res@),
{
    uuid::Uuid::new_v4().to_string()
}

/// The current time.
///
/// Trusted: calls `chrono::Utc::now` and formats it with `to_rfc3339`; claims
/// the layout that `to_rfc3339` writes: the year (four digits, or `+` and
/// more digits past 9999), two-digit month, day, hour, minute and second, the
/// fraction of a second in 3, 6 or 9 digits when it is not zero, and the
/// offset `+00:00` (never `Z`). Which time it is is left open; `Utc::now`
/// never gives a time before 1970.
#[verifier::external_body]
pub(crate) fn now_rfc3339() -> (res: String)
    ensures
        is_utc_stamp(res@),
{
    chrono::Utc::now().to_rfc3339()
}

} // verus!
