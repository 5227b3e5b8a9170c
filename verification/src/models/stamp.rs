//! Where new records get their identity and their time: a random UUID and
//! the current UTC time.

use vstd::prelude::*;
use chrono::NaiveDateTime;

verus! {

#[verifier::external_type_specification]
#[verifier::external_body]
pub struct ExNaiveDateTime(NaiveDateTime);

/// A lower-case hexadecimal digit.
pub open spec fn is_lower_hex(c: char) -> bool {
    ('0' <= c && c <= '9') || ('a' <= c && c <= 'f')
}

/// The hyphenated text form of a version-4 UUID, such as
/// `67e55044-10b1-426f-9247-bb680e5fe0c8`: 36 characters, hyphens at
/// positions 8, 13, 18 and 23, lower-case hexadecimal digits elsewhere,
/// and the version digit `4` at position 14.
pub open spec fn is_v4_uuid_text(s: Seq<char>) -> bool {
    &&& s.len() == 36
    &&& forall|i: int|
        0 <= i < 36 ==> if i == 8 || i == 13 || i == 18 || i == 23 {
            s[i] == '-'
        } else {
            is_lower_hex(#[trigger] s[i])
        }
    &&& s[14] == '4'
}

/// A fresh random identifier: `uuid::Uuid::new_v4()` written with `to_string`.
/// Claimed of it: the text has the hyphenated lower-case form of a version-4
/// UUID. Which UUID comes out is left open: it is drawn at random.
#[verifier::external_body]
pub(crate) fn new_id() -> (id: String)
    ensures
        is_v4_uuid_text(id@),
{
    uuid::Uuid::new_v4().to_string()
}

/// The current time in UTC without a zone: `chrono::Utc::now().naive_utc()`.
/// Nothing is claimed of the value: it is read from the system clock.
#[verifier::external_body]
pub(crate) fn now_utc() -> NaiveDateTime {
    chrono::Utc::now().naive_utc()
}

} // verus!
