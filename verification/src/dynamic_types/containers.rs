//! The opaque values: a payload of some registered content type together
//! with the identifier of that content type.
//!
//! An opaque value owns its payload and cannot be copied. It is made by
//! decoding bytes through the registry, and it is encoded and released
//! through the registry again: each time the descriptor is looked up by the
//! identifier and the bundle of the value's role does the work.
use vstd::prelude::*;

use crate::dynamic_types::payload::{Functions, Payload};
use crate::dynamic_types::registry::{
    get_type_info_ref_by_type_id, spec_lookup, spec_slot, IDModuleInfoView, Registry,
};
use crate::dynamic_types::{type_id_eq, IDModule, Role, TypeID, Value};

verus! {

/// The bundle that `table` holds for the identifier `id` in the role `role`:
/// none if the identifier is unknown, and none if the content type does not
/// offer the role.
pub open spec fn spec_functions(table: Seq<IDModuleInfoView>, role: Role, id: Seq<char>) -> Option<
    Functions,
> {
    match spec_lookup(table, id) {
        Some(d) => d.functions(role),
        None => None,
    }
}

/// What an opaque value holds, as mathematics.
pub struct DynamicValueView {
    pub type_id: Seq<char>,
    pub data: Payload,
}

impl DynamicValueView {
    /// The identifier names a descriptor of `table` that has a bundle for
    /// `role`, and the bundle is the one for the payload's representation.
    pub open spec fn valid_in(self, table: Seq<IDModuleInfoView>, role: Role) -> bool {
        match spec_functions(table, role, self.type_id) {
            Some(f) => f.accepts(&self.data),
            None => false,
        }
    }

    /// The bytes that the value encodes to.
    pub open spec fn spec_serialize(self) -> Seq<u8> {
        self.data.spec_serialize()
    }
}

/// The opaque value that `src` decodes to under the identifier `id` in the
/// role `role`, if `table` has a bundle for the two.
pub open spec fn spec_deserialize(
    table: Seq<IDModuleInfoView>,
    role: Role,
    src: Seq<u8>,
    id: Seq<char>,
) -> Option<DynamicValueView> {
    match spec_functions(table, role, id) {
        Some(f) => Some(DynamicValueView { type_id: id, data: Payload::spec_deserialize(f.kind, src) }),
        None => None,
    }
}

/// Decoding succeeds for every byte string, whenever the identifier is
/// registered with the role; and what it yields is valid in the table.
pub proof fn lemma_deserialize_total(
    table: Seq<IDModuleInfoView>,
    role: Role,
    src: Seq<u8>,
    id: Seq<char>,
)
    ensures
        spec_deserialize(table, role, src, id) is Some <==> spec_functions(table, role, id) is Some,
        spec_deserialize(table, role, src, id) matches Some(v) ==> v.type_id == id && v.valid_in(
            table,
            role,
        ),
{
    match spec_functions(table, role, id) {
        Some(f) => Payload::lemma_deserialize_kind(f.kind, src),
        None => {},
    }
}

/// One round trip reaches a fixed point: a decoded value, encoded and
/// decoded again under the same identifier, is the same value, and so it
/// encodes to the same bytes.
pub proof fn lemma_round_trip(
    table: Seq<IDModuleInfoView>,
    role: Role,
    src: Seq<u8>,
    id: Seq<char>,
)
    ensures
        spec_deserialize(table, role, src, id) matches Some(v) ==> {
            &&& spec_deserialize(table, role, v.spec_serialize(), id) == Some(v)
            &&& spec_deserialize(table, role, v.spec_serialize(), id).unwrap().spec_serialize()
                == v.spec_serialize()
        },
{
    match spec_functions(table, role, id) {
        Some(f) => Payload::lemma_round_trip(f.kind, src),
        None => {},
    }
}

/// A value decoded under an identifier holds what the payload type that
/// filled the slot decodes: whenever the table files the bundle of payload
/// type `V` under the identifier and the role, decoding through the table
/// and decoding by `V` and then erasing come to the same, and looking inside
/// the value for a `V` finds it.
pub proof fn lemma_deserialize_by_type<V: Value>(
    table: Seq<IDModuleInfoView>,
    role: Role,
    src: Seq<u8>,
    id: Seq<char>,
)
    requires
        spec_functions(table, role, id) == spec_slot::<V>(role),
    ensures
        match spec_slot::<V>(role) {
            Some(_) => {
                &&& V::spec_deserialize(src).spec_erase() matches Some(data)
                &&& spec_deserialize(table, role, src, id) == Some(
                    DynamicValueView { type_id: id, data },
                )
                &&& V::spec_downcast(data) == Some(V::spec_deserialize(src))
            },
            None => spec_deserialize(table, role, src, id) is None,
        },
{
    V::lemma_erasure_is_faithful(V::spec_deserialize(src), src);
}

/// An opaque value of any role. It does not remember the registry that made
/// it, so its operations name the registry and the role again and ask that
/// the value be valid there.
#[derive(Debug)]
pub struct DynamicValue {
    data: Payload,
    type_id: TypeID,
}

impl View for DynamicValue {
    type V = DynamicValueView;

    closed spec fn view(&self) -> DynamicValueView {
        DynamicValueView { type_id: self.type_id@, data: self.data }
    }
}

impl DynamicValue {
    /// The identifier of the content type of the value.
    pub fn type_id(&self) -> (id: TypeID)
        ensures
            id@ == self@.type_id,
    {
        self.type_id
    }

    /// The payload, still erased.
    pub fn payload(&self) -> (data: &Payload)
        ensures
            *data == self@.data,
    {
        &self.data
    }

    /// Decodes `src` as a value of content type `type_id` in the role
    /// `role`. An unknown identifier and a content type without the role
    /// both give `None`; nothing else does.
    pub fn deserialize_from(registry: &Registry, role: Role, src: &[u8], type_id: &str) -> (value:
        Option<DynamicValue>)
        ensures
            value is Some <==> spec_functions(registry@, role, type_id@) is Some,
            match value {
                Some(v) => spec_deserialize(registry@, role, src@, type_id@) == Some(v@)
                    && v@.valid_in(registry@, role),
                None => spec_deserialize(registry@, role, src@, type_id@) is None,
            },
    {
        match get_type_info_ref_by_type_id(registry, type_id) {
            Some(info) => match info.functions(role) {
                Some(f) => {
                    let data = f.deserialize_from(src);
                    Some(DynamicValue { data, type_id: info.type_id() })
                },
                None => None,
            },
            None => None,
        }
    }

    pub fn deserialize_block_from(registry: &Registry, src: &[u8], type_id: &str) -> (value: Option<
        DynamicValue,
    >)
        ensures
            value is Some <==> spec_functions(registry@, Role::Block, type_id@) is Some,
            match value {
                Some(v) => spec_deserialize(registry@, Role::Block, src@, type_id@) == Some(v@)
                    && v@.valid_in(registry@, Role::Block),
                None => spec_deserialize(registry@, Role::Block, src@, type_id@) is None,
            },
    {
        Self::deserialize_from(registry, Role::Block, src, type_id)
    }

    pub fn deserialize_entity_from(registry: &Registry, src: &[u8], type_id: &str) -> (value:
        Option<DynamicValue>)
        ensures
            value is Some <==> spec_functions(registry@, Role::Entity, type_id@) is Some,
            match value {
                Some(v) => spec_deserialize(registry@, Role::Entity, src@, type_id@) == Some(v@)
                    && v@.valid_in(registry@, Role::Entity),
                None => spec_deserialize(registry@, Role::Entity, src@, type_id@) is None,
            },
    {
        Self::deserialize_from(registry, Role::Entity, src, type_id)
    }

    pub fn deserialize_item_from(registry: &Registry, src: &[u8], type_id: &str) -> (value: Option<
        DynamicValue,
    >)
        ensures
            value is Some <==> spec_functions(registry@, Role::Item, type_id@) is Some,
            match value {
                Some(v) => spec_deserialize(registry@, Role::Item, src@, type_id@) == Some(v@)
                    && v@.valid_in(registry@, Role::Item),
                None => spec_deserialize(registry@, Role::Item, src@, type_id@) is None,
            },
    {
        Self::deserialize_from(registry, Role::Item, src, type_id)
    }

    /// Whether the value is valid in `registry` in the role `role`, that is,
    /// whether it can be encoded and released there.
    pub fn is_valid_in(&self, registry: &Registry, role: Role) -> (valid: bool)
        ensures
            valid == self@.valid_in(registry@, role),
    {
        match get_type_info_ref_by_type_id(registry, self.type_id) {
            Some(info) => match info.functions(role) {
                Some(f) => f.accepts(&self.data),
                None => false,
            },
            None => false,
        }
    }

    /// The bundle that the registry holds for this value.
    fn functions(&self, registry: &Registry, role: Role) -> (f: Functions)
        requires
            self@.valid_in(registry@, role),
        ensures
            Some(f) == spec_functions(registry@, role, self@.type_id),
            f.accepts(&self@.data),
    {
        get_type_info_ref_by_type_id(registry, self.type_id).unwrap().functions(role).unwrap()
    }

    /// Encodes the value through the bundle that `registry` holds for it.
    pub fn serialize_into(&self, registry: &Registry, role: Role) -> (out: Vec<u8>)
        requires
            self@.valid_in(registry@, role),
        ensures
            out@ == self@.spec_serialize(),
    {
        let f = self.functions(registry, role);
        f.serialize_into(&self.data)
    }

    pub fn serialize_block_into(&self, registry: &Registry) -> (out: Vec<u8>)
        requires
            self@.valid_in(registry@, Role::Block),
        ensures
            out@ == self@.spec_serialize(),
    {
        self.serialize_into(registry, Role::Block)
    }

    pub fn serialize_entity_into(&self, registry: &Registry) -> (out: Vec<u8>)
        requires
            self@.valid_in(registry@, Role::Entity),
        ensures
            out@ == self@.spec_serialize(),
    {
        self.serialize_into(registry, Role::Entity)
    }

    pub fn serialize_item_into(&self, registry: &Registry) -> (out: Vec<u8>)
        requires
            self@.valid_in(registry@, Role::Item),
        ensures
            out@ == self@.spec_serialize(),
    {
        self.serialize_into(registry, Role::Item)
    }

    /// Releases the payload through the bundle that `registry` holds for
    /// it. The value is consumed: it cannot be released twice.
    pub fn destroy(self, registry: &Registry, role: Role)
        requires
            self@.valid_in(registry@, role),
    {
        let f = self.functions(registry, role);
        f.destroy(self.data)
    }

    /// The payload as the block payload type of content type `T`, if the
    /// value is of that content type and holds such a payload.
    pub fn get_concrete_block_value<T: IDModule>(&self) -> (value: Option<&T::BlockValue>)
        ensures
            match value {
                Some(v) => self@.type_id == T::spec_type_id() && T::BlockValue::spec_downcast(
                    self@.data,
                ) == Some(*v),
                None => self@.type_id != T::spec_type_id() || T::BlockValue::spec_downcast(
                    self@.data,
                ) is None,
            },
    {
        if type_id_eq(self.type_id, T::type_id()) {
            T::BlockValue::downcast(&self.data)
        } else {
            None
        }
    }

    /// The payload as the entity payload type of content type `T`, if the
    /// value is of that content type and holds such a payload.
    pub fn get_concrete_entity_value<T: IDModule>(&self) -> (value: Option<&T::EntityValue>)
        ensures
            match value {
                Some(v) => self@.type_id == T::spec_type_id() && T::EntityValue::spec_downcast(
                    self@.data,
                ) == Some(*v),
                None => self@.type_id != T::spec_type_id() || T::EntityValue::spec_downcast(
                    self@.data,
                ) is None,
            },
    {
        if type_id_eq(self.type_id, T::type_id()) {
            T::EntityValue::downcast(&self.data)
        } else {
            None
        }
    }

    /// The payload as the item payload type of content type `T`, if the
    /// value is of that content type and holds such a payload.
    pub fn get_concrete_item_value<T: IDModule>(&self) -> (value: Option<&T::ItemValue>)
        ensures
            match value {
                Some(v) => self@.type_id == T::spec_type_id() && T::ItemValue::spec_downcast(
                    self@.data,
                ) == Some(*v),
                None => self@.type_id != T::spec_type_id() || T::ItemValue::spec_downcast(
                    self@.data,
                ) is None,
            },
    {
        if type_id_eq(self.type_id, T::type_id()) {
            T::ItemValue::downcast(&self.data)
        } else {
            None
        }
    }
}

/// An opaque block value. It borrows the registry that made it, so the
/// registry cannot change while the value lives, and the value is valid in
/// it for as long as it lives: encoding and releasing never fail.
#[derive(Debug)]
pub struct BlockDynamicValue<'r> {
    registry: &'r Registry,
    value: DynamicValue,
}

impl<'r> View for BlockDynamicValue<'r> {
    type V = DynamicValueView;

    closed spec fn view(&self) -> DynamicValueView {
        self.value@
    }
}

impl<'r> BlockDynamicValue<'r> {
    #[verifier::type_invariant]
    spec fn inv(self) -> bool {
        self.value@.valid_in(self.registry@, Role::Block)
    }

    /// The table of the registry that made the value.
    pub closed spec fn spec_registry(&self) -> Seq<IDModuleInfoView> {
        self.registry@
    }

    /// The value is valid in the registry that made it.
    pub open spec fn wf(&self) -> bool {
        self@.valid_in(self.spec_registry(), Role::Block)
    }

    /// Every block value is valid in its registry. Calling this costs
    /// nothing and tells the verifier so.
    pub fn valid(&self)
        ensures
            self.wf(),
    {
        proof {
            use_type_invariant(self);
        }
    }

    /// Decodes `src` as a block of content type `type_id`. Every byte
    /// string decodes. `None` means that the identifier is unknown or that
    /// the content type is no block; nothing else gives `None`.
    pub fn deserialize_from(registry: &'r Registry, src: &[u8], type_id: &str) -> (value: Option<
        Self,
    >)
        ensures
            value is Some <==> spec_functions(registry@, Role::Block, type_id@) is Some,
            match value {
                Some(v) => spec_deserialize(registry@, Role::Block, src@, type_id@) == Some(v@)
                    && v.spec_registry() == registry@ && v.wf(),
                None => spec_deserialize(registry@, Role::Block, src@, type_id@) is None,
            },
    {
        match DynamicValue::deserialize_from(registry, Role::Block, src, type_id) {
            Some(value) => Some(BlockDynamicValue { registry, value }),
            None => None,
        }
    }

    /// Encodes the value through the bundle that the registry holds for it.
    pub fn serialize_into(&self) -> (out: Vec<u8>)
        ensures
            out@ == self@.spec_serialize(),
    {
        proof {
            use_type_invariant(self);
        }
        self.value.serialize_into(self.registry, Role::Block)
    }

    /// Releases the payload through the bundle that the registry holds for
    /// it. The value is consumed: it cannot be released twice.
    pub fn destroy(self) {
        proof {
            use_type_invariant(&self);
        }
        let BlockDynamicValue { registry, value } = self;
        value.destroy(registry, Role::Block)
    }

    /// The identifier of the content type of the value.
    pub fn type_id(&self) -> (id: TypeID)
        ensures
            id@ == self@.type_id,
    {
        self.value.type_id()
    }

    /// The payload, still erased.
    pub fn payload(&self) -> (data: &Payload)
        ensures
            *data == self@.data,
    {
        self.value.payload()
    }

    /// The payload as the block payload type of content type `T`, if the
    /// value is of that content type.
    pub fn get_concrete_value<T: IDModule>(&self) -> (value: Option<&T::BlockValue>)
        ensures
            match value {
                Some(v) => self@.type_id == T::spec_type_id() && T::BlockValue::spec_downcast(
                    self@.data,
                ) == Some(*v),
                None => self@.type_id != T::spec_type_id() || T::BlockValue::spec_downcast(
                    self@.data,
                ) is None,
            },
    {
        self.value.get_concrete_block_value::<T>()
    }
}

/// An opaque entity value. It borrows the registry that made it, so the
/// registry cannot change while the value lives, and the value is valid in
/// it for as long as it lives: encoding and releasing never fail.
#[derive(Debug)]
pub struct EntityDynamicValue<'r> {
    registry: &'r Registry,
    value: DynamicValue,
}

impl<'r> View for EntityDynamicValue<'r> {
    type V = DynamicValueView;

    closed spec fn view(&self) -> DynamicValueView {
        self.value@
    }
}

impl<'r> EntityDynamicValue<'r> {
    #[verifier::type_invariant]
    spec fn inv(self) -> bool {
        self.value@.valid_in(self.registry@, Role::Entity)
    }

    /// The table of the registry that made the value.
    pub closed spec fn spec_registry(&self) -> Seq<IDModuleInfoView> {
        self.registry@
    }

    /// The value is valid in the registry that made it.
    pub open spec fn wf(&self) -> bool {
        self@.valid_in(self.spec_registry(), Role::Entity)
    }

    /// Every entity value is valid in its registry. Calling this costs
    /// nothing and tells the verifier so.
    pub fn valid(&self)
        ensures
            self.wf(),
    {
        proof {
            use_type_invariant(self);
        }
    }

    /// Decodes `src` as a entity of content type `type_id`. Every byte
    /// string decodes. `None` means that the identifier is unknown or that
    /// the content type is no entity; nothing else gives `None`.
    pub fn deserialize_from(registry: &'r Registry, src: &[u8], type_id: &str) -> (value: Option<
        Self,
    >)
        ensures
            value is Some <==> spec_functions(registry@, Role::Entity, type_id@) is Some,
            match value {
                Some(v) => spec_deserialize(registry@, Role::Entity, src@, type_id@) == Some(v@)
                    && v.spec_registry() == registry@ && v.wf(),
                None => spec_deserialize(registry@, Role::Entity, src@, type_id@) is None,
            },
    {
        match DynamicValue::deserialize_from(registry, Role::Entity, src, type_id) {
            Some(value) => Some(EntityDynamicValue { registry, value }),
            None => None,
        }
    }

    /// Encodes the value through the bundle that the registry holds for it.
    pub fn serialize_into(&self) -> (out: Vec<u8>)
        ensures
            out@ == self@.spec_serialize(),
    {
        proof {
            use_type_invariant(self);
        }
        self.value.serialize_into(self.registry, Role::Entity)
    }

    /// Releases the payload through the bundle that the registry holds for
    /// it. The value is consumed: it cannot be released twice.
    pub fn destroy(self) {
        proof {
            use_type_invariant(&self);
        }
        let EntityDynamicValue { registry, value } = self;
        value.destroy(registry, Role::Entity)
    }

    /// The identifier of the content type of the value.
    pub fn type_id(&self) -> (id: TypeID)
        ensures
            id@ == self@.type_id,
    {
        self.value.type_id()
    }

    /// The payload, still erased.
    pub fn payload(&self) -> (data: &Payload)
        ensures
            *data == self@.data,
    {
        self.value.payload()
    }

    /// The payload as the entity payload type of content type `T`, if the
    /// value is of that content type.
    pub fn get_concrete_value<T: IDModule>(&self) -> (value: Option<&T::EntityValue>)
        ensures
            match value {
                Some(v) => self@.type_id == T::spec_type_id() && T::EntityValue::spec_downcast(
                    self@.data,
                ) == Some(*v),
                None => self@.type_id != T::spec_type_id() || T::EntityValue::spec_downcast(
                    self@.data,
                ) is None,
            },
    {
        self.value.get_concrete_entity_value::<T>()
    }
}

/// An opaque item value. It borrows the registry that made it, so the
/// registry cannot change while the value lives, and the value is valid in
/// it for as long as it lives: encoding and releasing never fail.
#[derive(Debug)]
pub struct ItemDynamicValue<'r> {
    registry: &'r Registry,
    value: DynamicValue,
}

impl<'r> View for ItemDynamicValue<'r> {
    type V = DynamicValueView;

    closed spec fn view(&self) -> DynamicValueView {
        self.value@
    }
}

impl<'r> ItemDynamicValue<'r> {
    #[verifier::type_invariant]
    spec fn inv(self) -> bool {
        self.value@.valid_in(self.registry@, Role::Item)
    }

    /// The table of the registry that made the value.
    pub closed spec fn spec_registry(&self) -> Seq<IDModuleInfoView> {
        self.registry@
    }

    /// The value is valid in the registry that made it.
    pub open spec fn wf(&self) -> bool {
        self@.valid_in(self.spec_registry(), Role::Item)
    }

    /// Every item value is valid in its registry. Calling this costs
    /// nothing and tells the verifier so.
    pub fn valid(&self)
        ensures
            self.wf(),
    {
        proof {
            use_type_invariant(self);
        }
    }

    /// Decodes `src` as a item of content type `type_id`. Every byte
    /// string decodes. `None` means that the identifier is unknown or that
    /// the content type is no item; nothing else gives `None`.
    pub fn deserialize_from(registry: &'r Registry, src: &[u8], type_id: &str) -> (value: Option<
        Self,
    >)
        ensures
            value is Some <==> spec_functions(registry@, Role::Item, type_id@) is Some,
            match value {
                Some(v) => spec_deserialize(registry@, Role::Item, src@, type_id@) == Some(v@)
                    && v.spec_registry() == registry@ && v.wf(),
                None => spec_deserialize(registry@, Role::Item, src@, type_id@) is None,
            },
    {
        match DynamicValue::deserialize_from(registry, Role::Item, src, type_id) {
            Some(value) => Some(ItemDynamicValue { registry, value }),
            None => None,
        }
    }

    /// Encodes the value through the bundle that the registry holds for it.
    pub fn serialize_into(&self) -> (out: Vec<u8>)
        ensures
            out@ == self@.spec_serialize(),
    {
        proof {
            use_type_invariant(self);
        }
        self.value.serialize_into(self.registry, Role::Item)
    }

    /// Releases the payload through the bundle that the registry holds for
    /// it. The value is consumed: it cannot be released twice.
    pub fn destroy(self) {
        proof {
            use_type_invariant(&self);
        }
        let ItemDynamicValue { registry, value } = self;
        value.destroy(registry, Role::Item)
    }

    /// The identifier of the content type of the value.
    pub fn type_id(&self) -> (id: TypeID)
        ensures
            id@ == self@.type_id,
    {
        self.value.type_id()
    }

    /// The payload, still erased.
    pub fn payload(&self) -> (data: &Payload)
        ensures
            *data == self@.data,
    {
        self.value.payload()
    }

    /// The payload as the item payload type of content type `T`, if the
    /// value is of that content type.
    pub fn get_concrete_value<T: IDModule>(&self) -> (value: Option<&T::ItemValue>)
        ensures
            match value {
                Some(v) => self@.type_id == T::spec_type_id() && T::ItemValue::spec_downcast(
                    self@.data,
                ) == Some(*v),
                None => self@.type_id != T::spec_type_id() || T::ItemValue::spec_downcast(
                    self@.data,
                ) is None,
            },
    {
        self.value.get_concrete_item_value::<T>()
    }
}

} // verus!
