//! The erased payload and the dispatch bundle that encodes, decodes and
//! releases it.
use vstd::prelude::*;

use crate::dynamic_types::exp_orb;
use crate::dynamic_types::stone;
use crate::dynamic_types::{PayloadKind, Value};

verus! {

/// A payload of any payload type of this build, behind one type.
#[derive(Debug)]
pub enum Payload {
    StoneBlock(stone::Block),
    StoneItem(stone::Item),
    ExpOrbEntity(exp_orb::Entity),
}

impl Payload {
    /// The representation that this payload has.
    pub open spec fn spec_kind(&self) -> PayloadKind {
        match *self {
            Payload::StoneBlock(_) => PayloadKind::StoneBlock,
            Payload::StoneItem(_) => PayloadKind::StoneItem,
            Payload::ExpOrbEntity(_) => PayloadKind::ExpOrbEntity,
        }
    }

    /// The payload of kind `kind` that `src` decodes to.
    pub open spec fn spec_deserialize(kind: PayloadKind, src: Seq<u8>) -> Payload {
        match kind {
            PayloadKind::StoneBlock => Payload::StoneBlock(stone::Block::spec_decode(src)),
            PayloadKind::StoneItem => Payload::StoneItem(stone::Item::spec_decode(src)),
            PayloadKind::ExpOrbEntity => Payload::ExpOrbEntity(exp_orb::Entity::spec_decode(src)),
        }
    }

    /// The bytes that this payload encodes to.
    pub open spec fn spec_serialize(&self) -> Seq<u8> {
        match *self {
            Payload::StoneBlock(b) => b.spec_encode(),
            Payload::StoneItem(i) => i.spec_encode(),
            Payload::ExpOrbEntity(e) => e.spec_encode(),
        }
    }

    #[verifier::when_used_as_spec(spec_kind)]
    pub fn kind(&self) -> (k: PayloadKind)
        ensures
            k == self.spec_kind(),
    {
        match self {
            Payload::StoneBlock(_) => PayloadKind::StoneBlock,
            Payload::StoneItem(_) => PayloadKind::StoneItem,
            Payload::ExpOrbEntity(_) => PayloadKind::ExpOrbEntity,
        }
    }

    /// Decoding yields a payload of the kind asked for.
    pub proof fn lemma_deserialize_kind(kind: PayloadKind, src: Seq<u8>)
        ensures
            Payload::spec_deserialize(kind, src).spec_kind() == kind,
    {
    }

    /// Encoding undoes decoding on every byte string that encoding produces.
    pub proof fn lemma_serialize_inverts_deserialize(data: Payload)
        ensures
            Payload::spec_deserialize(data.spec_kind(), data.spec_serialize()).spec_serialize()
                == data.spec_serialize(),
    {
        match data {
            Payload::StoneBlock(b) => stone::Block::lemma_serialize_inverts_deserialize(b),
            Payload::StoneItem(i) => stone::Item::lemma_serialize_inverts_deserialize(i),
            Payload::ExpOrbEntity(e) => exp_orb::Entity::lemma_serialize_inverts_deserialize(e),
        }
    }

    /// A decoded payload survives encoding and decoding unchanged, and so do
    /// its bytes.
    pub proof fn lemma_round_trip(kind: PayloadKind, src: Seq<u8>)
        ensures
            ({
                let once = Payload::spec_deserialize(kind, src);
                let twice = Payload::spec_deserialize(kind, once.spec_serialize());
                twice == once && twice.spec_serialize() == once.spec_serialize()
            }),
    {
        match kind {
            PayloadKind::StoneBlock => stone::Block::lemma_deserialize_is_fixed_point(src),
            PayloadKind::StoneItem => stone::Item::lemma_deserialize_is_fixed_point(src),
            PayloadKind::ExpOrbEntity => exp_orb::Entity::lemma_deserialize_is_fixed_point(src),
        }
    }
}

/// The dispatch bundle of one role of one content type: it names the payload
/// representation whose decoder, encoder and destructor it stands for, and
/// carries that representation's size estimate.
#[derive(Clone, Copy, PartialEq, Eq, Structural, Debug)]
pub struct Functions {
    pub kind: PayloadKind,
    pub serialized_size_hint: usize,
}

impl Functions {
    /// The bundle of a payload type, `None` for "no capability".
    pub open spec fn spec_of<V: Value>() -> Option<Functions> {
        match V::spec_kind() {
            Some(kind) => Some(
                Functions { kind, serialized_size_hint: V::spec_serialized_size_hint() },
            ),
            None => None,
        }
    }

    pub fn of<V: Value>() -> (f: Option<Functions>)
        ensures
            f == Self::spec_of::<V>(),
    {
        match V::kind() {
            Some(kind) => Some(Functions { kind, serialized_size_hint: V::serialized_size_hint() }),
            None => None,
        }
    }

    /// Whether this bundle is the one for `data`'s representation.
    pub open spec fn spec_accepts(&self, data: &Payload) -> bool {
        data.spec_kind() == self.kind
    }

    #[verifier::when_used_as_spec(spec_accepts)]
    pub fn accepts(&self, data: &Payload) -> (ok: bool)
        ensures
            ok == self.spec_accepts(data),
    {
        data.kind() == self.kind
    }

    /// Decodes `src`. Every byte string decodes to a payload.
    pub fn deserialize_from(&self, src: &[u8]) -> (data: Payload)
        ensures
            data == Payload::spec_deserialize(self.kind, src@),
            self.accepts(&data),
    {
        match self.kind {
            PayloadKind::StoneBlock => Payload::StoneBlock(stone::Block::deserialize_from(src)),
            PayloadKind::StoneItem => Payload::StoneItem(stone::Item::deserialize_from(src)),
            PayloadKind::ExpOrbEntity => Payload::ExpOrbEntity(
                exp_orb::Entity::deserialize_from(src),
            ),
        }
    }

    /// Encodes `data`, which must be of this bundle's representation.
    pub fn serialize_into(&self, data: &Payload) -> (out: Vec<u8>)
        requires
            self.accepts(data),
        ensures
            out@ == data.spec_serialize(),
    {
        match data {
            Payload::StoneBlock(b) => b.serialize_into(),
            Payload::StoneItem(i) => i.serialize_into(),
            Payload::ExpOrbEntity(e) => e.serialize_into(),
        }
    }

    /// Releases `data`, which must be of this bundle's representation.
    pub fn destroy(&self, data: Payload)
        requires
            self.accepts(&data),
    {
        match data {
            Payload::StoneBlock(b) => b.destroy(),
            Payload::StoneItem(i) => i.destroy(),
            Payload::ExpOrbEntity(e) => e.destroy(),
        }
    }
}

} // verus!
