//! MongoDB object ids as the server reads and writes them: twelve bytes,
//! written as twenty-four hexadecimal digits.

use vstd::prelude::*;

verus! {

/// The twelve bytes of a MongoDB object id.
#[derive(Clone, Copy, PartialEq, Eq, Debug)]
pub struct ObjectKey {
    pub bytes: [u8; 12],
}

/// The value of a hexadecimal digit in either case, or -1 for any other
/// character.
pub open spec fn hex_value(c: char) -> int {
    let u = c as u32;
    if 0x30 <= u <= 0x39 {
        u - 0x30
    } else if 0x61 <= u <= 0x66 {
        u - 0x61 + 10
    } else if 0x41 <= u <= 0x46 {
        u - 0x41 + 10
    } else {
        -1
    }
}

/// Text that names an object id: exactly twenty-four hexadecimal digits,
/// upper or lower case.
pub open spec fn is_object_id_text(s: Seq<char>) -> bool {
    &&& s.len() == 24
    &&& forall|i: int| 0 <= i < 24 ==> #[trigger] hex_value(s[i]) >= 0
}

/// The byte that the digits at `2 * i` and `2 * i + 1` of `s` stand for.
pub open spec fn decoded_byte(s: Seq<char>, i: int) -> int {
    hex_value(s[2 * i]) * 16 + hex_value(s[2 * i + 1])
}

/// The id that object id text stands for.
pub open spec fn names_key(s: Seq<char>, key: ObjectKey) -> bool {
    forall|i: int| 0 <= i < 12 ==> #[trigger] key.bytes@[i] == decoded_byte(s, i)
}

/// The lower-case hexadecimal digit for `d < 16`.
pub open spec fn lower_hex_digit(d: int) -> char {
    seq!['0', '1', '2', '3', '4', '5', '6', '7', '8', '9', 'a', 'b', 'c', 'd', 'e', 'f'][d]
}

/// The lower-case hexadecimal text of an id, two digits per byte, high
/// digit first.
pub open spec fn key_text(key: ObjectKey) -> Seq<char> {
    Seq::new(
        24,
        |i: int|
            if i % 2 == 0 {
                lower_hex_digit(key.bytes@[i / 2] as int / 16)
            } else {
                lower_hex_digit(key.bytes@[i / 2] as int % 16)
            },
    )
}

/// `bson::oid::ObjectId::parse_str`: the text is hex-decoded and accepted
/// when it decodes to exactly twelve bytes, so it succeeds exactly on
/// twenty-four hexadecimal digits (either case), and the id holds the
/// decoded bytes in order.
#[verifier::external_body]
pub(crate) fn parse_object_id(s: &str) -> (r: Option<ObjectKey>)
    ensures
        r is Some <==> is_object_id_text(s@),
        r matches Some(key) ==> names_key(s@, key),
{
    match mongodb::bson::oid::ObjectId::parse_str(s) {
        Ok(oid) => Some(ObjectKey { bytes: oid.bytes() }),
        Err(_) => None,
    }
}

/// `ObjectId::from_bytes(..).to_hex()`: `hex::encode` of the twelve bytes,
/// which writes two lower-case digits per byte, high digit first.
#[verifier::external_body]
pub(crate) fn object_id_text(key: &ObjectKey) -> (s: String)
    ensures
        s@ == key_text(*key),
{
    mongodb::bson::oid::ObjectId::from_bytes(key.bytes).to_hex()
}

/// The id a piece of text names, when it is object id text.
pub open spec fn parsed_key(s: Seq<char>) -> Option<ObjectKey> {
    if is_object_id_text(s) {
        Some(choose|key: ObjectKey| names_key(s, key))
    } else {
        None
    }
}

/// Object id text names one id only, the one `parsed_key` picks.
pub proof fn named_key_unique(s: Seq<char>, key: ObjectKey)
    requires
        is_object_id_text(s),
        names_key(s, key),
    ensures
        parsed_key(s) == Some(key),
{
    let other = choose|k: ObjectKey| names_key(s, k);
    assert(names_key(s, other));
    assert(other.bytes@ =~= key.bytes@);
    assert(other.bytes == key.bytes);
}

/// Printing an id and reading the text back gives the same id: the text is
/// object id text, and the only id it names is the one printed.
pub proof fn key_text_round_trip(key: ObjectKey, other: ObjectKey)
    ensures
        is_object_id_text(key_text(key)),
        names_key(key_text(key), key),
        names_key(key_text(key), other) ==> other == key,
{
    let t = key_text(key);
    assert forall|i: int| 0 <= i < 24 implies #[trigger] hex_value(t[i]) >= 0 by {
        let b = key.bytes@[i / 2] as int;
        assert(0 <= b / 16 < 16 && 0 <= b % 16 < 16);
    }
    assert forall|i: int| 0 <= i < 12 implies #[trigger] key.bytes@[i] == decoded_byte(t, i) by {
        let b = key.bytes@[i] as int;
        assert((2 * i) / 2 == i && (2 * i + 1) / 2 == i);
        assert((2 * i) % 2 == 0 && (2 * i + 1) % 2 == 1);
        assert(0 <= b / 16 < 16 && 0 <= b % 16 < 16);
        assert(hex_value(lower_hex_digit(b / 16)) == b / 16);
        assert(hex_value(lower_hex_digit(b % 16)) == b % 16);
        assert(b == (b / 16) * 16 + b % 16);
    }
    if names_key(t, other) {
        assert(other.bytes@ =~= key.bytes@);
        assert(other.bytes == key.bytes);
    }
}

} // verus!
