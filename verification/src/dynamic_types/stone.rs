//! Stone: a block and an item, neither of which carries any data.
use vstd::prelude::*;

use crate::dynamic_types::payload::Payload;
use crate::dynamic_types::{IDModule, PayloadKind, Tag, TypeID, Value};

verus! {

/// The content type "stone".
pub struct Module;

/// A stone block. It has no state, so it encodes to no bytes.
#[derive(Clone, Copy, PartialEq, Eq, Structural, Debug)]
pub struct Block {}

/// A stone item. It has no state, so it encodes to no bytes.
#[derive(Clone, Copy, PartialEq, Eq, Structural, Debug)]
pub struct Item {}

impl Block {
    /// Every byte string decodes to the one stone block there is.
    pub open spec fn spec_decode(src: Seq<u8>) -> Block {
        Block {  }
    }

    /// A stone block encodes to no bytes.
    pub open spec fn spec_encode(self) -> Seq<u8> {
        Seq::empty()
    }
}

impl Item {
    /// Every byte string decodes to the one stone item there is.
    pub open spec fn spec_decode(src: Seq<u8>) -> Item {
        Item {  }
    }

    /// A stone item encodes to no bytes.
    pub open spec fn spec_encode(self) -> Seq<u8> {
        Seq::empty()
    }
}

impl Value for Block {
    open spec fn spec_kind() -> Option<PayloadKind> {
        Some(PayloadKind::StoneBlock)
    }

    open spec fn spec_serialized_size_hint() -> usize {
        0
    }

    open spec fn spec_deserialize(src: Seq<u8>) -> Self {
        Block::spec_decode(src)
    }

    open spec fn spec_serialize(&self) -> Seq<u8> {
        self.spec_encode()
    }

    open spec fn spec_erase(self) -> Option<Payload> {
        Some(Payload::StoneBlock(self))
    }

    open spec fn spec_downcast(p: Payload) -> Option<Self> {
        match p {
            Payload::StoneBlock(b) => Some(b),
            _ => None,
        }
    }

    proof fn lemma_serialize_inverts_deserialize(v: Self) {
    }

    proof fn lemma_deserialize_is_fixed_point(src: Seq<u8>) {
    }

    proof fn lemma_erasure_is_faithful(v: Self, src: Seq<u8>) {
    }

    fn kind() -> (k: Option<PayloadKind>) {
        Some(PayloadKind::StoneBlock)
    }

    fn serialized_size_hint() -> (n: usize) {
        0
    }

    fn deserialize_from(src: &[u8]) -> (v: Self) {
        Block {  }
    }

    fn serialize_into(&self) -> (out: Vec<u8>) {
        Vec::with_capacity(0)
    }

    fn destroy(self) {
    }

    fn erase(self) -> (p: Option<Payload>) {
        Some(Payload::StoneBlock(self))
    }

    fn downcast(p: &Payload) -> (v: Option<&Self>) {
        match p {
            Payload::StoneBlock(b) => Some(b),
            _ => None,
        }
    }
}

impl Value for Item {
    open spec fn spec_kind() -> Option<PayloadKind> {
        Some(PayloadKind::StoneItem)
    }

    open spec fn spec_serialized_size_hint() -> usize {
        0
    }

    open spec fn spec_deserialize(src: Seq<u8>) -> Self {
        Item::spec_decode(src)
    }

    open spec fn spec_serialize(&self) -> Seq<u8> {
        self.spec_encode()
    }

    open spec fn spec_erase(self) -> Option<Payload> {
        Some(Payload::StoneItem(self))
    }

    open spec fn spec_downcast(p: Payload) -> Option<Self> {
        match p {
            Payload::StoneItem(i) => Some(i),
            _ => None,
        }
    }

    proof fn lemma_serialize_inverts_deserialize(v: Self) {
    }

    proof fn lemma_deserialize_is_fixed_point(src: Seq<u8>) {
    }

    proof fn lemma_erasure_is_faithful(v: Self, src: Seq<u8>) {
    }

    fn kind() -> (k: Option<PayloadKind>) {
        Some(PayloadKind::StoneItem)
    }

    fn serialized_size_hint() -> (n: usize) {
        0
    }

    fn deserialize_from(src: &[u8]) -> (v: Self) {
        Item {  }
    }

    fn serialize_into(&self) -> (out: Vec<u8>) {
        Vec::with_capacity(0)
    }

    fn destroy(self) {
    }

    fn erase(self) -> (p: Option<Payload>) {
        Some(Payload::StoneItem(self))
    }

    fn downcast(p: &Payload) -> (v: Option<&Self>) {
        match p {
            Payload::StoneItem(i) => Some(i),
            _ => None,
        }
    }
}

impl IDModule for Module {
    type BlockValue = Block;

    type EntityValue = ();

    type ItemValue = Item;

    open spec fn spec_type_id() -> Seq<char> {
        "stone"@
    }

    open spec fn spec_tag_list() -> Seq<Tag> {
        seq![Tag::Stone, Tag::CanBeBurn]
    }

    fn type_id() -> (id: TypeID) {
        "stone"
    }

    fn tag_list() -> (tags: &'static [Tag]) {
        let tags: &'static [Tag; 2] = &[Tag::Stone, Tag::CanBeBurn];
        assert(tags@ =~= seq![Tag::Stone, Tag::CanBeBurn]);
        tags.as_slice()
    }
}

} // verus!
