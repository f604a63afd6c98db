//! Identifiers, capability tags, and the contracts that content types fulfil.
use vstd::prelude::*;
use vstd::string::StringSliceAdditionalSpecFns;
use vstd::utf8::encode_utf8_decode_utf8;

pub mod containers;
pub mod exp_orb;
pub mod payload;
pub mod registry;
pub mod stone;

use crate::dynamic_types::payload::Payload;

verus! {

/// The stable name of a content type. Two identifiers are the same when they
/// spell the same characters.
pub type TypeID = &'static str;

/// Compares two identifiers, character by character.
pub fn type_id_eq(a: &str, b: &str) -> (same: bool)
    ensures
        same == (a@ == b@),
{
    let x = a.as_bytes();
    let y = b.as_bytes();
    proof {
        // The bytes of a string determine its characters.
        encode_utf8_decode_utf8(a@);
        encode_utf8_decode_utf8(b@);
    }
    if x.len() != y.len() {
        return false;
    }
    let mut i: usize = 0;
    while i < x.len()
        invariant
            i <= x.len(),
            x.len() == y.len(),
            x@ == a.spec_bytes(),
            y@ == b.spec_bytes(),
            forall|j: int| 0 <= j < i ==> x@[j] == y@[j],
        decreases x.len() - i,
    {
        if x[i] != y[i] {
            return false;
        }
        i += 1;
    }
    assert(x@ =~= y@);
    true
}

/// A descriptive label of a content type. Tags carry no behaviour.
#[derive(Clone, Copy, PartialEq, Eq, Structural, Debug)]
pub enum Tag {
    CanBeBurn,
    RedStonePowerSource,
    Wood,
    Stone,
    Dirt,
}

/// The capacity in which a content type appears in the world.
#[derive(Clone, Copy, PartialEq, Eq, Structural, Debug)]
pub enum Role {
    Block,
    Entity,
    Item,
}

/// The payload representations known to this build, one per payload type.
#[derive(Clone, Copy, PartialEq, Eq, Structural, Debug)]
pub enum PayloadKind {
    StoneBlock,
    StoneItem,
    ExpOrbEntity,
}

impl PayloadKind {
    /// The role that payloads of this kind play.
    pub open spec fn spec_role(self) -> Role {
        match self {
            PayloadKind::StoneBlock => Role::Block,
            PayloadKind::StoneItem => Role::Item,
            PayloadKind::ExpOrbEntity => Role::Entity,
        }
    }

    #[verifier::when_used_as_spec(spec_role)]
    pub fn role(self) -> (r: Role)
        ensures
            r == self.spec_role(),
    {
        match self {
            PayloadKind::StoneBlock => Role::Block,
            PayloadKind::StoneItem => Role::Item,
            PayloadKind::ExpOrbEntity => Role::Entity,
        }
    }
}

/// What a payload type provides for one role of a content type.
///
/// Decoding is total: every byte string, however short or malformed, yields a
/// valid payload. Encoding never fails. The proof obligations state how the
/// two fit together, and that nothing is lost when a payload is erased.
pub trait Value: Sized {
    /// The representation this type is erased to, `None` for a type that
    /// stands for "no capability".
    spec fn spec_kind() -> Option<PayloadKind>;

    /// The estimate of the encoded size, used to size buffers only.
    spec fn spec_serialized_size_hint() -> usize;

    /// The payload that `src` decodes to.
    spec fn spec_deserialize(src: Seq<u8>) -> Self;

    /// The bytes that this payload encodes to.
    spec fn spec_serialize(&self) -> Seq<u8>;

    /// This payload in its erased form, `None` for "no capability".
    spec fn spec_erase(self) -> Option<Payload>;

    /// The payload of this type inside `p`, if `p` holds one.
    spec fn spec_downcast(p: Payload) -> Option<Self>;

    /// Encoding undoes decoding on every byte string that encoding produces.
    proof fn lemma_serialize_inverts_deserialize(v: Self)
        ensures
            Self::spec_deserialize(v.spec_serialize()).spec_serialize() == v.spec_serialize(),
    ;

    /// A decoded payload survives encoding and decoding unchanged.
    proof fn lemma_deserialize_is_fixed_point(src: Seq<u8>)
        ensures
            Self::spec_deserialize(Self::spec_deserialize(src).spec_serialize())
                == Self::spec_deserialize(src),
    ;

    /// Erasure loses nothing. For a type that has a kind, the erased payload
    /// has that kind, encodes to the same bytes and gives the payload back,
    /// and decoding by kind agrees with decoding by type.
    proof fn lemma_erasure_is_faithful(v: Self, src: Seq<u8>)
        ensures
            Self::spec_kind() matches Some(kind) ==> {
                &&& v.spec_erase() matches Some(p)
                &&& p.spec_kind() == kind
                &&& p.spec_serialize() == v.spec_serialize()
                &&& Self::spec_downcast(p) == Some(v)
                &&& Some(Payload::spec_deserialize(kind, src)) == Self::spec_deserialize(
                    src,
                ).spec_erase()
            },
    ;

    fn kind() -> (k: Option<PayloadKind>)
        ensures
            k == Self::spec_kind(),
    ;

    fn serialized_size_hint() -> (n: usize)
        ensures
            n == Self::spec_serialized_size_hint(),
    ;

    /// Decodes a payload. Every input decodes.
    fn deserialize_from(src: &[u8]) -> (v: Self)
        ensures
            v == Self::spec_deserialize(src@),
    ;

    /// Encodes the payload.
    fn serialize_into(&self) -> (out: Vec<u8>)
        ensures
            out@ == self.spec_serialize(),
    ;

    /// Releases what the payload owns. The payload is gone afterwards.
    fn destroy(self);

    /// Gives the payload up to its erased form.
    fn erase(self) -> (p: Option<Payload>)
        ensures
            p == self.spec_erase(),
    ;

    /// Looks inside an erased payload for a payload of this type.
    fn downcast(p: &Payload) -> (v: Option<&Self>)
        ensures
            match v {
                Some(v) => Self::spec_downcast(*p) == Some(*v),
                None => Self::spec_downcast(*p) is None,
            },
    ;
}

/// The marker for a role that a content type declines. It has no kind, so no
/// dispatch bundle is ever made for it and no erased payload ever holds it.
impl Value for () {
    open spec fn spec_kind() -> Option<PayloadKind> {
        None
    }

    open spec fn spec_serialized_size_hint() -> usize {
        0
    }

    open spec fn spec_deserialize(src: Seq<u8>) -> Self {
        ()
    }

    open spec fn spec_serialize(&self) -> Seq<u8> {
        Seq::empty()
    }

    open spec fn spec_erase(self) -> Option<Payload> {
        None
    }

    open spec fn spec_downcast(p: Payload) -> Option<Self> {
        None
    }

    proof fn lemma_serialize_inverts_deserialize(v: Self) {
    }

    proof fn lemma_deserialize_is_fixed_point(src: Seq<u8>) {
    }

    proof fn lemma_erasure_is_faithful(v: Self, src: Seq<u8>) {
    }

    fn kind() -> (k: Option<PayloadKind>) {
        None
    }

    fn serialized_size_hint() -> (n: usize) {
        0
    }

    fn deserialize_from(src: &[u8]) -> (v: Self) {
        ()
    }

    fn serialize_into(&self) -> (out: Vec<u8>) {
        Vec::new()
    }

    fn destroy(self) {
    }

    fn erase(self) -> (p: Option<Payload>) {
        None
    }

    fn downcast(p: &Payload) -> (v: Option<&Self>) {
        None
    }
}

/// A content type. It names itself, lists its tags, and says which payload
/// type, if any, it offers for each role; `()` declines a role.
pub trait IDModule {
    type BlockValue: Value;

    type EntityValue: Value;

    type ItemValue: Value;

    spec fn spec_type_id() -> Seq<char>;

    spec fn spec_tag_list() -> Seq<Tag>;

    fn type_id() -> (id: TypeID)
        ensures
            id@ == Self::spec_type_id(),
    ;

    fn tag_list() -> (tags: &'static [Tag])
        ensures
            tags@ == Self::spec_tag_list(),
    ;
}

/// Whether two payload types are erased to the same representation: both
/// stand for "no capability", or both have the same kind.
pub fn type_eq<T: Value, U: Value>() -> (same: bool)
    ensures
        same == (T::spec_kind() == U::spec_kind()),
{
    match (T::kind(), U::kind()) {
        (None, None) => true,
        (Some(a), Some(b)) => a == b,
        _ => false,
    }
}

} // verus!
