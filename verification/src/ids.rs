//! Identifiers of rides and sessions: 128-bit UUIDs, held as the integer whose
//! big-endian bytes are the UUID, and their textual forms.

use vstd::prelude::*;
use crate::text::hex_lower_fixed;

verus! {

/// The "simple" form of a UUID: its 32 hexadecimal digits in lower case.
pub open spec fn uuid_simple_text(id: u128) -> Seq<char> {
    hex_lower_fixed(id as nat, 32)
}

/// The hyphenated form of a UUID (`8-4-4-4-12` lower case hexadecimal digits),
/// which is also what a UUID prints as.
pub open spec fn uuid_hyphenated_text(id: u128) -> Seq<char> {
    let s = uuid_simple_text(id);
    s.subrange(0, 8) + seq!['-'] + s.subrange(8, 12) + seq!['-'] + s.subrange(12, 16) + seq!['-']
        + s.subrange(16, 20) + seq!['-'] + s.subrange(20, 32)
}

/// The version number of a UUID (the high nibble of its seventh byte).
pub open spec fn uuid_version(id: u128) -> nat {
    ((id as nat) / 0x1_0000_0000_0000_0000_0000) % 16
}

/// The two variant bits of a UUID (the high bits of its ninth byte).
pub open spec fn uuid_variant_bits(id: u128) -> nat {
    ((id as nat) / 0x4000_0000_0000_0000) % 4
}

/// What `uuid::Uuid::parse_str` makes of a text: the UUID's value, or `None`
/// where it refuses the text.
pub uninterp spec fn uuid_parse(text: Seq<char>) -> Option<u128>;

/// A fresh random UUID of version 4, through `uuid::Uuid::new_v4`.
/// The crate draws 128 random bits and then sets the version nibble to 4 and
/// the variant bits to `10`; that is all that is claimed of the result.
#[verifier::external_body]
pub(crate) fn new_v4_id() -> (id: u128)
    ensures
        uuid_version(id) == 4,
        uuid_variant_bits(id) == 2,
{
    uuid::Uuid::new_v4().as_u128()
}

/// The simple text of a UUID, through `uuid::Uuid::as_simple` and `to_string`:
/// claimed to be its 32 lower case hexadecimal digits, most significant first.
#[verifier::external_body]
pub(crate) fn uuid_simple_string(id: u128) -> (s: String)
    ensures
        s@ == uuid_simple_text(id),
{
    uuid::Uuid::from_u128(id).as_simple().to_string()
}

/// The printed form of a UUID, through `uuid::Uuid`'s `Display`: claimed to be
/// the hyphenated lower case form.
#[verifier::external_body]
pub(crate) fn uuid_hyphenated_string(id: u128) -> (s: String)
    ensures
        s@ == uuid_hyphenated_text(id),
{
    uuid::Uuid::from_u128(id).to_string()
}

/// Parses a UUID through `uuid::Uuid::parse_str`. The result is named by
/// `uuid_parse`; of the accepted forms only two are claimed here, as the
/// crate's documentation promises: the simple and the hyphenated form of any
/// UUID parse back to that UUID.
#[verifier::external_body]
pub(crate) fn parse_uuid(text: &str) -> (r: Option<u128>)
    ensures
        r == uuid_parse(text@),
        forall|id: u128| #[trigger] uuid_simple_text(id) == text@ ==> r == Some(id),
        forall|id: u128| #[trigger] uuid_hyphenated_text(id) == text@ ==> r == Some(id),
{
    match uuid::Uuid::parse_str(text) {
        Ok(u) => Some(u.as_u128()),
        Err(_) => None,
    }
}

/// The first field of a UUID as `uuid::Uuid::as_fields` splits it: its four
/// most significant bytes.
pub open spec fn uuid_first_field(id: u128) -> nat {
    (id as nat) / 0x1_0000_0000_0000_0000_0000_0000
}

/// The first field of a UUID (its four most significant bytes).
pub fn first_field(id: u128) -> (r: u32)
    ensures
        r as nat == uuid_first_field(id),
        r as nat * 0x1_0000_0000_0000_0000_0000_0000 <= id,
        (id as nat) < (r as nat + 1) * 0x1_0000_0000_0000_0000_0000_0000,
{
    let high: u128 = id / 0x1_0000_0000_0000_0000_0000_0000u128;
    assert(high < 0x1_0000_0000);
    high as u32
}

/// The first field is the UUID's four most significant bytes, whole: a
/// 32-bit number that, shifted up by 96 bits, leaves of the UUID only the
/// remaining 96 bits.
pub proof fn lemma_first_field_is_top_bytes(id: u128)
    ensures
        uuid_first_field(id) < 0x1_0000_0000,
        uuid_first_field(id) * 0x1_0000_0000_0000_0000_0000_0000 <= id,
        (id as nat) - uuid_first_field(id) * 0x1_0000_0000_0000_0000_0000_0000
            < 0x1_0000_0000_0000_0000_0000_0000,
{
}

} // verus!
