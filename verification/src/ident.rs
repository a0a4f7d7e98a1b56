//! Container identifiers as text, and fresh ones, by way of the `uuid` crate.

use crate::model::ContainerId;
use vstd::arithmetic::power::pow;
use vstd::prelude::*;

verus! {

/// The lowercase hexadecimal digit that stands for a value below 16.
pub open spec fn hex_digit(value: int) -> char {
    if value < 10 {
        ('0' as int + value) as char
    } else {
        ('a' as int + value - 10) as char
    }
}

/// Which of the 32 hexadecimal digits of an identifier stands at place `i` of
/// its 36 characters, the hyphens left aside.
pub open spec fn digit_index(i: int) -> int {
    if i < 8 {
        i
    } else if i < 13 {
        i - 1
    } else if i < 18 {
        i - 2
    } else if i < 23 {
        i - 3
    } else {
        i - 4
    }
}

/// The hyphenated form of an identifier: its 32 lowercase hexadecimal digits,
/// the most significant first, in groups of 8, 4, 4, 4 and 12.
pub open spec fn hyphenated(value: u128) -> Seq<char> {
    Seq::new(
        36,
        |i: int|
            if i == 8 || i == 13 || i == 18 || i == 23 {
                '-'
            } else {
                hex_digit((value as int / pow(16, (31 - digit_index(i)) as nat)) % 16)
            },
    )
}

/// What `uuid::Uuid::parse_str` makes of a text: the identifier that the text
/// denotes, or the words in which the parser refuses it.
pub uninterp spec fn uuid_parse(text: Seq<char>) -> Result<u128, Seq<char>>;

/// Whether a fresh identifier has the shape of a random UUID: version 4 in
/// bits 76 to 79, variant `10` in bits 62 and 63.
pub open spec fn is_random_id(value: u128) -> bool {
    value & 0x0000_0000_0000_f000_c000_0000_0000_0000 == 0x0000_0000_0000_4000_8000_0000_0000_0000
}

/// Reads an identifier with `uuid::Uuid::parse_str`, which takes the simple,
/// hyphenated, braced and URN forms, and hands back the identifier as a
/// number, or else the parser's complaint as text. Trusted: the outcome is
/// the one that `uuid_parse` names for this text.
#[verifier::external_body]
pub(crate) fn parse_id(text: &str) -> (outcome: Result<ContainerId, String>)
    ensures
        outcome matches Ok(id) ==> uuid_parse(text@) is Ok && uuid_parse(text@)->Ok_0 == id.0,
        outcome matches Err(complaint) ==> uuid_parse(text@) is Err && uuid_parse(text@)->Err_0
            == complaint@,
{
    match uuid::Uuid::parse_str(text) {
        Ok(id) => Ok(ContainerId(id.as_u128())),
        Err(e) => Err(e.to_string()),
    }
}

/// Writes an identifier as `uuid::Uuid` displays it. Trusted: the text is the
/// hyphenated lowercase form, and `uuid::Uuid::parse_str` reads that form
/// back as the same identifier.
#[verifier::external_body]
pub(crate) fn id_text(id: ContainerId) -> (text: String)
    ensures
        text@ == hyphenated(id.0),
        uuid_parse(text@) is Ok && uuid_parse(text@)->Ok_0 == id.0,
{
    uuid::Uuid::from_u128(id.0).to_string()
}

/// Draws a random identifier with `uuid::Uuid::new_v4`. Trusted: the
/// identifier carries the version and variant marks of a random UUID; nothing
/// is said of its other bits. The call fails the process where the operating
/// system gives no random bytes.
#[verifier::external_body]
pub(crate) fn fresh_id() -> (id: ContainerId)
    ensures
        is_random_id(id.0),
{
    ContainerId(uuid::Uuid::new_v4().as_u128())
}

} // verus!
