//! Random version-4 UUIDs and their canonical text.
use vstd::prelude::*;

verus! {

/// A UUID as its sixteen bytes, most significant first.
#[derive(Clone, Copy, Debug, PartialEq, Eq)]
pub struct Uuid {
    pub bytes: [u8; 16],
}

/// The lower-case hex digit of `n`, for `n` in `0..16`.
pub open spec fn hex_digit(n: int) -> char
    recommends
        0 <= n < 16,
{
    seq!['0', '1', '2', '3', '4', '5', '6', '7', '8', '9', 'a', 'b', 'c', 'd', 'e', 'f'][n]
}

/// Two lower-case hex digits for each byte, high nibble first.
pub open spec fn hex_of(b: Seq<u8>) -> Seq<char> {
    Seq::new(
        2 * b.len(),
        |i: int|
            if i % 2 == 0 {
                hex_digit(b[i / 2] as int / 16)
            } else {
                hex_digit(b[i / 2] as int % 16)
            },
    )
}

/// The hyphenated text of sixteen bytes: groups of 4, 2, 2, 2 and 6 bytes
/// in hex, joined by `-`.
pub open spec fn hyphenated_text(b: Seq<u8>) -> Seq<char> {
    hex_of(b.subrange(0, 4)) + seq!['-'] + hex_of(b.subrange(4, 6)) + seq!['-'] + hex_of(
        b.subrange(6, 8),
    ) + seq!['-'] + hex_of(b.subrange(8, 10)) + seq!['-'] + hex_of(b.subrange(10, 16))
}

pub open spec fn is_lower_hex(c: char) -> bool {
    ('0' <= c && c <= '9') || ('a' <= c && c <= 'f')
}

pub open spec fn is_hyphen_position(i: int) -> bool {
    i == 8 || i == 13 || i == 18 || i == 23
}

/// The canonical text of a version-4 UUID: 36 characters in groups of
/// 8-4-4-4-12 lower-case hex digits, the version digit `4`, and the variant
/// digit one of `8`, `9`, `a`, `b`.
pub open spec fn is_v4_text(s: Seq<char>) -> bool {
    &&& s.len() == 36
    &&& forall|i: int|
        0 <= i < 36 ==> if is_hyphen_position(i) {
            s[i] == '-'
        } else {
            is_lower_hex(#[trigger] s[i])
        }
    &&& s[14] == '4'
    &&& s[19] == '8' || s[19] == '9' || s[19] == 'a' || s[19] == 'b'
}

/// Relies on `uuid::Uuid::new_v4`: 128 random bits whose version and
/// variant bits it then sets; `into_bytes` hands the 16 bytes out as they
/// stand. `new_v4` panics when the system's random source fails.
#[verifier::external_body]
fn random_v4_bytes() -> (r: [u8; 16])
    ensures
        r@[6] & 0xf0 == 0x40,
        r@[8] & 0xc0 == 0x80,
{
    uuid::Uuid::new_v4().into_bytes()
}

/// Relies on the `Display` of `uuid::Uuid` (its hyphenated lower-case form):
/// the bytes in order as lower-case hex, with `-` after the 4th, 6th, 8th
/// and 10th byte.
#[verifier::external_body]
fn hyphenated_of(bytes: [u8; 16]) -> (r: String)
    ensures
        r@ == hyphenated_text(bytes@),
{
    uuid::Uuid::from_bytes(bytes).to_string()
}

impl Uuid {
    /// Version 4 (random), RFC 4122 variant: the high nibble of byte 6 is 4
    /// and the two high bits of byte 8 are `10`.
    pub open spec fn is_v4(&self) -> bool {
        &&& self.bytes@[6] & 0xf0 == 0x40
        &&& self.bytes@[8] & 0xc0 == 0x80
    }

    /// A fresh random version-4 UUID.
    pub fn new_v4() -> (r: Uuid)
        ensures
            r.is_v4(),
    {
        Uuid { bytes: random_v4_bytes() }
    }

    /// The canonical hyphenated lower-case text, such as
    /// `f47ac10b-58cc-4372-a567-0e02b2c3d479`.
    pub fn to_hyphenated(&self) -> (r: String)
        ensures
            r@ == hyphenated_text(self.bytes@),
            self.is_v4() ==> is_v4_text(r@),
    {
        proof {
            if self.is_v4() {
                lemma_v4_text_is_canonical(*self);
            }
        }
        hyphenated_of(self.bytes)
    }
}

/// `count` fresh random version-4 UUIDs, in the order they were drawn.
pub fn gen_uuids(count: u8) -> (r: Vec<Uuid>)
    ensures
        r.len() == count,
        forall|i: int| 0 <= i < r.len() ==> (#[trigger] r[i]).is_v4(),
{
    let mut vals: Vec<Uuid> = Vec::new();
    for _n in 0..count
        invariant
            vals.len() == _n,
            forall|i: int| 0 <= i < vals.len() ==> (#[trigger] vals[i]).is_v4(),
    {
        vals.push(Uuid::new_v4());
    }
    vals
}

proof fn lemma_hex_of_is_lower_hex(b: Seq<u8>)
    ensures
        hex_of(b).len() == 2 * b.len(),
        forall|i: int| 0 <= i < 2 * b.len() ==> is_lower_hex(#[trigger] hex_of(b)[i]),
{
    assert forall|i: int| 0 <= i < 2 * b.len() implies is_lower_hex(#[trigger] hex_of(b)[i]) by {
        let x = b[i / 2] as int;
        assert(0 <= x / 16 < 16 && 0 <= x % 16 < 16);
    }
}

/// The text of a version-4 UUID is canonical: every identifier that
/// `gen_uuids` returns is written in the 8-4-4-4-12 form with its version
/// and variant digits.
pub proof fn lemma_v4_text_is_canonical(u: Uuid)
    requires
        u.is_v4(),
    ensures
        is_v4_text(hyphenated_text(u.bytes@)),
{
    let b = u.bytes@;
    let s = hyphenated_text(b);
    let b6 = b[6];
    let b8 = b[8];
    assert(b6 & 0xf0 == 0x40 ==> b6 / 16 == 4) by (bit_vector);
    assert(b8 & 0xc0 == 0x80 ==> 8 <= b8 / 16 && b8 / 16 <= 11) by (bit_vector);
    lemma_hex_of_is_lower_hex(b.subrange(0, 4));
    lemma_hex_of_is_lower_hex(b.subrange(4, 6));
    lemma_hex_of_is_lower_hex(b.subrange(6, 8));
    lemma_hex_of_is_lower_hex(b.subrange(8, 10));
    lemma_hex_of_is_lower_hex(b.subrange(10, 16));
    assert(s.len() == 36);
    assert(s[14] == hex_of(b.subrange(6, 8))[0]);
    assert(s[19] == hex_of(b.subrange(8, 10))[0]);
}

} // verus!
