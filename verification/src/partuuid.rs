//! The textual form of a partition UUID and the token built from it.
//!
//! A partition table hands out a UUID as sixteen bytes; the device cache
//! knows the partition under the token `PARTUUID=` followed by the UUID in
//! lower-case hyphenated form, such as
//! `PARTUUID=67e55044-10b1-426f-9247-bb680e5fe0c8`.

use vstd::prelude::*;
use vstd::string::*;

verus! {

/// The lower-case hexadecimal digit for a value below sixteen.
pub open spec fn lower_hex(nibble: int) -> char {
    if nibble < 10 {
        ('0' as int + nibble) as char
    } else {
        ('a' as int + nibble - 10) as char
    }
}

/// Two lower-case hexadecimal digits per byte, high digit first.
pub open spec fn hex_run(bytes: Seq<u8>) -> Seq<char> {
    Seq::new(
        2 * bytes.len(),
        |i: int|
            if i % 2 == 0 {
                lower_hex(bytes[i / 2] as int / 16)
            } else {
                lower_hex(bytes[i / 2] as int % 16)
            },
    )
}

/// The hyphenated form of a sixteen-byte UUID: groups of 8, 4, 4, 4 and 12
/// lower-case hexadecimal digits, joined by `-`.
pub open spec fn hyphenated_lower(uuid: Seq<u8>) -> Seq<char> {
    hex_run(uuid.subrange(0, 4)) + seq!['-'] + hex_run(uuid.subrange(4, 6)) + seq!['-'] + hex_run(
        uuid.subrange(6, 8),
    ) + seq!['-'] + hex_run(uuid.subrange(8, 10)) + seq!['-'] + hex_run(uuid.subrange(10, 16))
}

/// The token under which the device cache knows the partition with this UUID.
pub open spec fn partuuid_token_spec(uuid: Seq<u8>) -> Seq<char> {
    "PARTUUID="@ + hyphenated_lower(uuid)
}

/// Calls `uuid::Uuid::from_bytes`, `Uuid::hyphenated` and
/// `uuid::fmt::Hyphenated::encode_lower`, on a buffer from
/// `Uuid::encode_buffer`. Trusted, not proved: the text that comes back is the
/// 36 characters of `hyphenated_lower`, which is how the `uuid` crate lays out
/// its lower-case hyphenated format.
#[verifier::external_body]
fn encode_hyphenated_lower(uuid: &[u8; 16]) -> (text: String)
    ensures
        text@ == hyphenated_lower(uuid@),
{
    let mut buffer = uuid::Uuid::encode_buffer();
    let text: &str = uuid::Uuid::from_bytes(*uuid).hyphenated().encode_lower(&mut buffer);
    text.to_string()
}

/// Builds the synthetic token `PARTUUID=<uuid>` for a partition UUID.
pub fn partuuid_token(uuid: &[u8; 16]) -> (token: String)
    ensures
        token@ == partuuid_token_spec(uuid@),
{
    let text = encode_hyphenated_lower(uuid);
    String::from_str("PARTUUID=").concat(text.as_str())
}

/// A lower-case hexadecimal digit.
pub open spec fn is_lower_hex(c: char) -> bool {
    ('0' <= c && c <= '9') || ('a' <= c && c <= 'f')
}

/// Where the first of the two digits of byte `index` stands in the hyphenated
/// form: two places per byte, and one more for each hyphen before it.
pub open spec fn digit_offset(index: int) -> int {
    if index < 4 {
        2 * index
    } else if index < 6 {
        2 * index + 1
    } else if index < 8 {
        2 * index + 2
    } else if index < 10 {
        2 * index + 3
    } else {
        2 * index + 4
    }
}

/// The hyphenated form of sixteen bytes has 36 characters: `-` at offsets 8,
/// 13, 18 and 23, and at the two places of each byte its high and its low
/// digit.
pub proof fn lemma_hyphenated_layout(uuid: Seq<u8>)
    requires
        uuid.len() == 16,
    ensures
        hyphenated_lower(uuid).len() == 36,
        hyphenated_lower(uuid)[8] == '-',
        hyphenated_lower(uuid)[13] == '-',
        hyphenated_lower(uuid)[18] == '-',
        hyphenated_lower(uuid)[23] == '-',
        forall|k: int|
            0 <= k < 16 ==> #[trigger] hyphenated_lower(uuid)[digit_offset(k)] == lower_hex(
                uuid[k] as int / 16,
            ),
        forall|k: int|
            0 <= k < 16 ==> #[trigger] hyphenated_lower(uuid)[digit_offset(k) + 1] == lower_hex(
                uuid[k] as int % 16,
            ),
{
}

/// Every character of the hyphenated form is `-` or a lower-case hexadecimal
/// digit, and the token is the nine characters `PARTUUID=` before it: 45
/// characters in all.
pub proof fn lemma_token_shape(uuid: Seq<u8>)
    requires
        uuid.len() == 16,
    ensures
        forall|i: int|
            0 <= i < 36 ==> {
                let c = #[trigger] hyphenated_lower(uuid)[i];
                if i == 8 || i == 13 || i == 18 || i == 23 {
                    c == '-'
                } else {
                    is_lower_hex(c)
                }
            },
        partuuid_token_spec(uuid).len() == 45,
        partuuid_token_spec(uuid).subrange(0, 9) == "PARTUUID="@,
        partuuid_token_spec(uuid).subrange(9, 45) == hyphenated_lower(uuid),
{
    reveal_strlit("PARTUUID=");
}

/// The token tells UUIDs apart: two UUIDs with the same token are the same
/// sixteen bytes.
pub proof fn lemma_token_names_one_uuid(a: Seq<u8>, b: Seq<u8>)
    requires
        a.len() == 16,
        b.len() == 16,
        partuuid_token_spec(a) == partuuid_token_spec(b),
    ensures
        a == b,
{
    lemma_token_shape(a);
    lemma_token_shape(b);
    lemma_hyphenated_layout(a);
    lemma_hyphenated_layout(b);
    assert forall|k: int| 0 <= k < 16 implies a[k] == b[k] by {
        assert(hyphenated_lower(a)[digit_offset(k)] == hyphenated_lower(b)[digit_offset(k)]);
        assert(hyphenated_lower(a)[digit_offset(k) + 1] == hyphenated_lower(b)[digit_offset(k)
            + 1]);
    }
    assert(a =~= b);
}

} // verus!
