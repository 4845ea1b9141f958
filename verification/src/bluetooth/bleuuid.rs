//! UUIDs as the Bluetooth stack uses them: 128-bit values, their short
//! numeric forms and their textual forms.

use vstd::prelude::*;

verus! {

/// The Bluetooth base UUID, `00000000-0000-1000-8000-00805f9b34fb`.
pub const BLUETOOTH_BASE_UUID: u128 = 0x0000_0000_0000_1000_8000_0080_5f9b_34fb;

/// The weight of a short UUID inside a full one: two to the power of 96.
pub const SHORT_UUID_WEIGHT: u128 = 0x1_0000_0000_0000_0000_0000_0000;

/// The full UUID that a short UUID stands for: the short value times two to
/// the power of 96, plus the base UUID.
pub open spec fn expanded_short_uuid(short: u32) -> u128 {
    (short * SHORT_UUID_WEIGHT + BLUETOOTH_BASE_UUID) as u128
}

/// Expands a 32-bit short UUID to its full 128-bit form.
pub fn uuid_from_u32(short: u32) -> (uuid: u128)
    ensures
        uuid == expanded_short_uuid(short),
{
    let wide: u128 = short as u128;
    assert(wide <= 0xffff_ffff ==> (0x0000_0000_0000_1000_8000_0080_5f9b_34fbu128 | (wide << 96))
        == wide * 0x1_0000_0000_0000_0000_0000_0000 + 0x0000_0000_0000_1000_8000_0080_5f9b_34fb)
        by (bit_vector);
    BLUETOOTH_BASE_UUID | (wide << 96)
}

/// The digit that lower-case hexadecimal writes for a value below sixteen.
pub open spec fn lower_hex_digit(value: int) -> char {
    seq![
        '0', '1', '2', '3', '4', '5', '6', '7', '8', '9', 'a', 'b', 'c', 'd', 'e', 'f',
    ][value]
}

/// The `index`-th of the 32 hexadecimal digits of `uuid`, the most significant first.
pub open spec fn hex_digit_at(uuid: u128, index: int) -> int {
    ((uuid >> ((4 * (31 - index)) as u128)) & 0xf) as int
}

/// How many hyphens the hyphenated form holds before `position`.
pub open spec fn hyphens_before(position: int) -> int {
    if position < 8 {
        0
    } else if position < 13 {
        1
    } else if position < 18 {
        2
    } else if position < 23 {
        3
    } else {
        4
    }
}

/// The hyphenated form of a UUID: its 32 lower-case hexadecimal digits in
/// groups of 8, 4, 4, 4 and 12, with a hyphen between two groups.
pub open spec fn hyphenated_form(uuid: u128) -> Seq<char> {
    Seq::new(
        36,
        |position: int|
            if position == 8 || position == 13 || position == 18 || position == 23 {
                '-'
            } else {
                lower_hex_digit(hex_digit_at(uuid, position - hyphens_before(position)))
            },
    )
}

/// The hyphenated form has 36 characters, all of them ASCII.
pub proof fn lemma_hyphenated_form_is_ascii(uuid: u128)
    ensures
        hyphenated_form(uuid).len() == 36,
        vstd::utf8::is_ascii_chars(hyphenated_form(uuid)),
{
    let form = hyphenated_form(uuid);
    assert forall|position: int| 0 <= position < form.len() implies '\0' <= #[trigger] form[position]
        <= '\u{7f}' by {
        let index = position - hyphens_before(position);
        let shift = (4 * (31 - index)) as u128;
        assert((uuid >> shift) & 0xf < 16) by (bit_vector);
        let digits = seq![
            '0', '1', '2', '3', '4', '5', '6', '7', '8', '9', 'a', 'b', 'c', 'd', 'e', 'f',
        ];
        assert(forall|value: int| 0 <= value < 16 ==> '0' <= #[trigger] digits[value] <= 'f');
    }
}

/// The UUID that `uuid::Uuid::parse_str` reads from a text, or `None` where it
/// rejects the text.
pub uninterp spec fn parsed_uuid(text: Seq<char>) -> Option<u128>;

/// Reads a UUID from its text with `uuid::Uuid::parse_str`, which accepts the
/// simple, hyphenated, braced and URN forms. Nothing is claimed about which
/// texts are accepted beyond what `hyphenated` states.
#[verifier::external_body]
pub(crate) fn parse_uuid(text: &str) -> (uuid: Option<u128>)
    ensures
        uuid == parsed_uuid(text@),
{
    match uuid::Uuid::parse_str(text) {
        Ok(parsed) => Some(parsed.as_u128()),
        Err(_) => None,
    }
}

/// Writes a UUID with `uuid::Uuid::hyphenated`, whose text is the lower-case
/// hyphenated form. `uuid::Uuid::parse_str` reads every form that the crate
/// writes, so the text reads back as the same UUID.
#[verifier::external_body]
pub(crate) fn hyphenated(uuid: u128) -> (text: String)
    ensures
        text@ == hyphenated_form(uuid),
        parsed_uuid(text@) == Some(uuid),
{
    uuid::Uuid::from_u128(uuid).hyphenated().to_string()
}

/// Whether a UUID has the shape of a random one: version 4, variant RFC 4122.
pub open spec fn is_random_uuid(uuid: u128) -> bool {
    uuid & 0xf000_c000_0000_0000_0000 == 0x4000_8000_0000_0000_0000
}

/// Draws a UUID with `uuid::Uuid::new_v4`: 122 random bits from the operating
/// system, with the version set to 4 and the variant to RFC 4122. Which value
/// comes back is not determined by anything the caller holds. The call panics
/// where the operating system yields no random bytes.
#[verifier::external_body]
pub(crate) fn random_uuid() -> (uuid: u128)
    ensures
        is_random_uuid(uuid),
{
    uuid::Uuid::new_v4().as_u128()
}

} // verus!
