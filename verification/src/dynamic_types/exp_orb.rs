//! The experience orb: an entity that carries an amount of experience.
//!
//! The amount is encoded as eight bytes, least significant byte first. Input
//! shorter than eight bytes decodes to the amount zero; bytes after the
//! eighth are ignored.
use vstd::arithmetic::div_mod::lemma_div_denominator;
use vstd::prelude::*;

use crate::dynamic_types::payload::Payload;
use crate::dynamic_types::{IDModule, PayloadKind, Tag, TypeID, Value};

verus! {

/// The number of bytes an encoded amount takes.
pub const ENCODED_LEN: usize = 8;

/// The number that the first eight bytes of `b` spell, least significant
/// byte first.
pub open spec fn spec_u64_from_le(b: Seq<u8>) -> int
    recommends
        b.len() >= 8,
{
    b[0] + 256 * (b[1] + 256 * (b[2] + 256 * (b[3] + 256 * (b[4] + 256 * (b[5] + 256 * (b[6] + 256
        * b[7]))))))
}

/// The eight bytes that spell `v`, least significant byte first.
pub open spec fn spec_u64_to_le(v: u64) -> Seq<u8> {
    seq![
        (v % 256) as u8,
        (v / 0x100 % 256) as u8,
        (v / 0x1_0000 % 256) as u8,
        (v / 0x100_0000 % 256) as u8,
        (v / 0x1_0000_0000 % 256) as u8,
        (v / 0x100_0000_0000 % 256) as u8,
        (v / 0x1_0000_0000_0000 % 256) as u8,
        (v / 0x100_0000_0000_0000 % 256) as u8,
    ]
}

/// Eight bytes spell a number that fits in 64 bits.
pub proof fn lemma_from_le_fits(b: Seq<u8>)
    requires
        b.len() >= 8,
    ensures
        0 <= spec_u64_from_le(b) <= u64::MAX,
{
}

/// Decoding the bytes of a number gives the number back.
pub proof fn lemma_from_le_of_to_le(v: u64)
    ensures
        spec_u64_to_le(v).len() == 8,
        spec_u64_from_le(spec_u64_to_le(v)) == v,
{
    let rest0 = v as int;
    let rest1 = rest0 / 256;
    let rest2 = rest1 / 256;
    let rest3 = rest2 / 256;
    let rest4 = rest3 / 256;
    let rest5 = rest4 / 256;
    let rest6 = rest5 / 256;
    let rest7 = rest6 / 256;
    // Dividing by a power of 256 is dividing by 256 again and again.
    lemma_div_denominator(rest0, 256, 256);
    lemma_div_denominator(rest0, 0x1_0000, 256);
    lemma_div_denominator(rest0, 0x100_0000, 256);
    lemma_div_denominator(rest0, 0x1_0000_0000, 256);
    lemma_div_denominator(rest0, 0x100_0000_0000, 256);
    lemma_div_denominator(rest0, 0x1_0000_0000_0000, 256);
    assert(rest2 == rest0 / 0x1_0000);
    assert(rest3 == rest0 / 0x100_0000);
    assert(rest4 == rest0 / 0x1_0000_0000);
    assert(rest5 == rest0 / 0x100_0000_0000);
    assert(rest6 == rest0 / 0x1_0000_0000_0000);
    assert(rest7 == rest0 / 0x100_0000_0000_0000);
    assert(rest7 < 256);
    let b = spec_u64_to_le(v);
    assert(b[0] == rest0 % 256 && b[1] == rest1 % 256 && b[2] == rest2 % 256 && b[3] == rest3 % 256);
    assert(b[4] == rest4 % 256 && b[5] == rest5 % 256 && b[6] == rest6 % 256 && b[7] == rest7);
    assert(rest6 == b[6] + 256 * b[7]);
    assert(rest5 == b[5] + 256 * rest6);
    assert(rest4 == b[4] + 256 * rest5);
    assert(rest3 == b[3] + 256 * rest4);
    assert(rest2 == b[2] + 256 * rest3);
    assert(rest1 == b[1] + 256 * rest2);
    assert(rest0 == b[0] + 256 * rest1);
}

/// Encoding the number that eight bytes spell gives the bytes back.
pub proof fn lemma_to_le_of_from_le(b: Seq<u8>)
    requires
        b.len() == 8,
    ensures
        spec_u64_to_le(spec_u64_from_le(b) as u64) == b,
{
    lemma_from_le_fits(b);
    let part7 = b[7] as int;
    let part6 = b[6] + 256 * part7;
    let part5 = b[5] + 256 * part6;
    let part4 = b[4] + 256 * part5;
    let part3 = b[3] + 256 * part4;
    let part2 = b[2] + 256 * part3;
    let part1 = b[1] + 256 * part2;
    let part0 = b[0] + 256 * part1;
    assert(part0 == spec_u64_from_le(b));
    // Each division by 256 strips the lowest byte.
    assert(part0 % 256 == b[0] && part0 / 256 == part1);
    assert(part1 % 256 == b[1] && part1 / 256 == part2);
    assert(part2 % 256 == b[2] && part2 / 256 == part3);
    assert(part3 % 256 == b[3] && part3 / 256 == part4);
    assert(part4 % 256 == b[4] && part4 / 256 == part5);
    assert(part5 % 256 == b[5] && part5 / 256 == part6);
    assert(part6 % 256 == b[6] && part6 / 256 == part7);
    assert(part7 % 256 == b[7]);
    lemma_div_denominator(part0, 256, 256);
    lemma_div_denominator(part0, 0x1_0000, 256);
    lemma_div_denominator(part0, 0x100_0000, 256);
    lemma_div_denominator(part0, 0x1_0000_0000, 256);
    lemma_div_denominator(part0, 0x100_0000_0000, 256);
    lemma_div_denominator(part0, 0x1_0000_0000_0000, 256);
    assert(part0 / 0x1_0000 == part2);
    assert(part0 / 0x100_0000 == part3);
    assert(part0 / 0x1_0000_0000 == part4);
    assert(part0 / 0x100_0000_0000 == part5);
    assert(part0 / 0x1_0000_0000_0000 == part6);
    assert(part0 / 0x100_0000_0000_0000 == part7);
    let out = spec_u64_to_le(part0 as u64);
    assert(out.len() == 8);
    assert(out[0] == b[0] && out[1] == b[1] && out[2] == b[2] && out[3] == b[3]);
    assert(out[4] == b[4] && out[5] == b[5] && out[6] == b[6] && out[7] == b[7]);
    assert(out =~= b);
}

/// The content type "exp_orb".
pub struct Module;

/// An experience orb in the world.
#[derive(Clone, Copy, PartialEq, Eq, Structural, Debug)]
pub struct Entity {
    /// The amount of experience that the orb carries.
    pub exp_amount: u64,
}

impl Entity {
    /// Fewer than eight bytes decode to the amount zero, anything longer to
    /// the number that its first eight bytes spell.
    pub open spec fn spec_decode(src: Seq<u8>) -> Entity {
        if src.len() < 8 {
            Entity { exp_amount: 0 }
        } else {
            Entity { exp_amount: spec_u64_from_le(src) as u64 }
        }
    }

    /// An orb encodes to the eight bytes of its amount.
    pub open spec fn spec_encode(self) -> Seq<u8> {
        spec_u64_to_le(self.exp_amount)
    }
}

impl Value for Entity {
    open spec fn spec_kind() -> Option<PayloadKind> {
        Some(PayloadKind::ExpOrbEntity)
    }

    open spec fn spec_serialized_size_hint() -> usize {
        ENCODED_LEN
    }

    open spec fn spec_deserialize(src: Seq<u8>) -> Self {
        Entity::spec_decode(src)
    }

    open spec fn spec_serialize(&self) -> Seq<u8> {
        self.spec_encode()
    }

    open spec fn spec_erase(self) -> Option<Payload> {
        Some(Payload::ExpOrbEntity(self))
    }

    open spec fn spec_downcast(p: Payload) -> Option<Self> {
        match p {
            Payload::ExpOrbEntity(e) => Some(e),
            _ => None,
        }
    }

    proof fn lemma_serialize_inverts_deserialize(v: Self) {
        lemma_from_le_of_to_le(v.exp_amount);
    }

    proof fn lemma_deserialize_is_fixed_point(src: Seq<u8>) {
        lemma_from_le_of_to_le(Self::spec_deserialize(src).exp_amount);
    }

    proof fn lemma_erasure_is_faithful(v: Self, src: Seq<u8>) {
    }

    fn kind() -> (k: Option<PayloadKind>) {
        Some(PayloadKind::ExpOrbEntity)
    }

    fn serialized_size_hint() -> (n: usize) {
        ENCODED_LEN
    }

    fn deserialize_from(src: &[u8]) -> (v: Self) {
        if src.len() < ENCODED_LEN {
            return Entity { exp_amount: 0 };
        }
        // Horner's scheme from the most significant byte down.
        let b7: u64 = src[7] as u64;
        let b6: u64 = b7 * 256 + src[6] as u64;
        let b5: u64 = b6 * 256 + src[5] as u64;
        let b4: u64 = b5 * 256 + src[4] as u64;
        let b3: u64 = b4 * 256 + src[3] as u64;
        let b2: u64 = b3 * 256 + src[2] as u64;
        let b1: u64 = b2 * 256 + src[1] as u64;
        let b0: u64 = b1 * 256 + src[0] as u64;
        Entity { exp_amount: b0 }
    }

    fn serialize_into(&self) -> (out: Vec<u8>) {
        let v: u64 = self.exp_amount;
        let mut out: Vec<u8> = Vec::with_capacity(ENCODED_LEN);
        out.push((v % 256) as u8);
        out.push((v / 0x100 % 256) as u8);
        out.push((v / 0x1_0000 % 256) as u8);
        out.push((v / 0x100_0000 % 256) as u8);
        out.push((v / 0x1_0000_0000 % 256) as u8);
        out.push((v / 0x100_0000_0000 % 256) as u8);
        out.push((v / 0x1_0000_0000_0000 % 256) as u8);
        out.push((v / 0x100_0000_0000_0000 % 256) as u8);
        assert(out@ =~= spec_u64_to_le(v));
        out
    }

    fn destroy(self) {
    }

    fn erase(self) -> (p: Option<Payload>) {
        Some(Payload::ExpOrbEntity(self))
    }

    fn downcast(p: &Payload) -> (v: Option<&Self>) {
        match p {
            Payload::ExpOrbEntity(e) => Some(e),
            _ => None,
        }
    }
}

impl IDModule for Module {
    type BlockValue = ();

    type EntityValue = Entity;

    type ItemValue = ();

    open spec fn spec_type_id() -> Seq<char> {
        "exp_orb"@
    }

    open spec fn spec_tag_list() -> Seq<Tag> {
        Seq::empty()
    }

    fn type_id() -> (id: TypeID) {
        "exp_orb"
    }

    fn tag_list() -> (tags: &'static [Tag]) {
        let tags: &'static [Tag; 0] = &[];
        assert(tags@ =~= Seq::<Tag>::empty());
        tags.as_slice()
    }
}

} // verus!
