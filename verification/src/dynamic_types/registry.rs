//! Content descriptors and the registry that holds them.
//!
//! The registry is an ordered table with at most one descriptor per
//! identifier. It is filled once, content type by content type, and only read
//! afterwards.
use vstd::prelude::*;

use crate::dynamic_types::exp_orb;
use crate::dynamic_types::payload::Functions;
use crate::dynamic_types::stone;
use crate::dynamic_types::{type_id_eq, IDModule, PayloadKind, Role, Tag, TypeID, Value};

verus! {

/// What a descriptor says, as mathematics.
pub struct IDModuleInfoView {
    pub type_id: Seq<char>,
    pub tags: Seq<Tag>,
    pub block_functions: Option<Functions>,
    pub entity_functions: Option<Functions>,
    pub item_functions: Option<Functions>,
}

impl IDModuleInfoView {
    /// The bundle for `role`, if the content type offers that role.
    pub open spec fn functions(self, role: Role) -> Option<Functions> {
        match role {
            Role::Block => self.block_functions,
            Role::Entity => self.entity_functions,
            Role::Item => self.item_functions,
        }
    }

    /// Each bundle stands for payloads of the role it is filed under.
    pub open spec fn wf(self) -> bool {
        &&& self.block_functions matches Some(f) ==> f.kind.spec_role() == Role::Block
        &&& self.entity_functions matches Some(f) ==> f.kind.spec_role() == Role::Entity
        &&& self.item_functions matches Some(f) ==> f.kind.spec_role() == Role::Item
    }
}

/// The descriptor of one content type: its identifier, its tags, and a
/// dispatch bundle for each role that it offers.
#[derive(Clone, Copy, Debug)]
pub struct IDModuleInfo {
    type_id: TypeID,
    tags: &'static [Tag],
    block_functions: Option<Functions>,
    entity_functions: Option<Functions>,
    item_functions: Option<Functions>,
}

impl View for IDModuleInfo {
    type V = IDModuleInfoView;

    closed spec fn view(&self) -> IDModuleInfoView {
        IDModuleInfoView {
            type_id: self.type_id@,
            tags: self.tags@,
            block_functions: self.block_functions,
            entity_functions: self.entity_functions,
            item_functions: self.item_functions,
        }
    }
}

impl IDModuleInfo {
    pub fn type_id(&self) -> (id: TypeID)
        ensures
            id@ == self@.type_id,
    {
        self.type_id
    }

    pub fn tags(&self) -> (tags: &'static [Tag])
        ensures
            tags@ == self@.tags,
    {
        self.tags
    }

    pub fn block_functions(&self) -> (f: Option<Functions>)
        ensures
            f == self@.block_functions,
    {
        self.block_functions
    }

    pub fn entity_functions(&self) -> (f: Option<Functions>)
        ensures
            f == self@.entity_functions,
    {
        self.entity_functions
    }

    pub fn item_functions(&self) -> (f: Option<Functions>)
        ensures
            f == self@.item_functions,
    {
        self.item_functions
    }

    /// The bundle for `role`, if the content type offers that role.
    pub fn functions(&self, role: Role) -> (f: Option<Functions>)
        ensures
            f == self@.functions(role),
    {
        match role {
            Role::Block => self.block_functions,
            Role::Entity => self.entity_functions,
            Role::Item => self.item_functions,
        }
    }

    /// Whether the content type carries `tag`.
    pub fn has_tag(&self, tag: Tag) -> (found: bool)
        ensures
            found == self@.tags.contains(tag),
    {
        let mut i: usize = 0;
        while i < self.tags.len()
            invariant
                i <= self.tags.len(),
                forall|j: int| 0 <= j < i ==> self.tags@[j] != tag,
            decreases self.tags.len() - i,
        {
            if self.tags[i] == tag {
                return true;
            }
            i += 1;
        }
        false
    }
}

/// The bundle that payload type `V` fills the slot of `role` with: its own
/// bundle if it is a payload type of that role, nothing otherwise.
pub open spec fn spec_slot<V: Value>(role: Role) -> Option<Functions> {
    match Functions::spec_of::<V>() {
        Some(f) => if f.kind.spec_role() == role {
            Some(f)
        } else {
            None
        },
        None => None,
    }
}

fn slot<V: Value>(role: Role) -> (f: Option<Functions>)
    ensures
        f == spec_slot::<V>(role),
{
    match Functions::of::<V>() {
        Some(f) => if f.kind.role() == role {
            Some(f)
        } else {
            None
        },
        None => None,
    }
}

/// The descriptor that content type `T` asks for.
pub open spec fn spec_id_module_info<T: IDModule>() -> IDModuleInfoView {
    IDModuleInfoView {
        type_id: T::spec_type_id(),
        tags: T::spec_tag_list(),
        block_functions: spec_slot::<T::BlockValue>(Role::Block),
        entity_functions: spec_slot::<T::EntityValue>(Role::Entity),
        item_functions: spec_slot::<T::ItemValue>(Role::Item),
    }
}

/// Turns a content type into its descriptor. A role gets a bundle exactly
/// when the content type names a payload type of that role for it.
pub fn into_id_module_info<T: IDModule>() -> (info: IDModuleInfo)
    ensures
        info@ == spec_id_module_info::<T>(),
        info@.wf(),
{
    IDModuleInfo {
        type_id: T::type_id(),
        tags: T::tag_list(),
        block_functions: slot::<T::BlockValue>(Role::Block),
        entity_functions: slot::<T::EntityValue>(Role::Entity),
        item_functions: slot::<T::ItemValue>(Role::Item),
    }
}

/// No identifier names two descriptors.
pub open spec fn unique_ids(table: Seq<IDModuleInfoView>) -> bool {
    forall|i: int, j: int|
        0 <= i < j < table.len() ==> (#[trigger] table[i]).type_id != (#[trigger] table[j]).type_id
}

/// What every registry is: no identifier twice, every bundle filed under the
/// role of its payloads.
pub open spec fn well_formed(table: Seq<IDModuleInfoView>) -> bool {
    &&& unique_ids(table)
    &&& forall|i: int| 0 <= i < table.len() ==> (#[trigger] table[i]).wf()
}

/// Whether some descriptor of `table` has the identifier `id`.
pub open spec fn registered(table: Seq<IDModuleInfoView>, id: Seq<char>) -> bool {
    exists|i: int| 0 <= i < table.len() && (#[trigger] table[i]).type_id == id
}

/// The descriptor of `table` with the identifier `id`, if there is one.
pub open spec fn spec_lookup(table: Seq<IDModuleInfoView>, id: Seq<char>) -> Option<
    IDModuleInfoView,
> {
    if registered(table, id) {
        Some(table[choose|i: int| 0 <= i < table.len() && (#[trigger] table[i]).type_id == id])
    } else {
        None
    }
}

/// The identifiers of the descriptors of `table` that carry `tag`, in the
/// order of the table, one for each such descriptor.
pub open spec fn spec_filter_ids(table: Seq<IDModuleInfoView>, tag: Tag) -> Seq<Seq<char>>
    decreases table.len(),
{
    if table.len() == 0 {
        Seq::empty()
    } else {
        let before = spec_filter_ids(table.drop_last(), tag);
        if table.last().tags.contains(tag) {
            before.push(table.last().type_id)
        } else {
            before
        }
    }
}

/// The characters that each of `ids` spells.
pub open spec fn id_views(ids: Seq<TypeID>) -> Seq<Seq<char>> {
    ids.map_values(|id: TypeID| id@)
}

/// Looking up an identifier finds nothing exactly when no descriptor has it,
/// and otherwise the one descriptor that has it.
pub proof fn lemma_lookup(table: Seq<IDModuleInfoView>, id: Seq<char>)
    requires
        well_formed(table),
    ensures
        spec_lookup(table, id) is None <==> !registered(table, id),
        spec_lookup(table, id) matches Some(d) ==> d.type_id == id && table.contains(d) && d.wf(),
        forall|i: int|
            0 <= i < table.len() && (#[trigger] table[i]).type_id == id ==> spec_lookup(table, id)
                == Some(table[i]),
{
    if registered(table, id) {
        let k = choose|i: int| 0 <= i < table.len() && (#[trigger] table[i]).type_id == id;
        assert(table[k].wf());
        assert forall|i: int| 0 <= i < table.len() && (#[trigger] table[i]).type_id == id implies i
            == k by {
            if i < k {
                assert(table[i].type_id != table[k].type_id);
            } else if k < i {
                assert(table[k].type_id != table[i].type_id);
            }
        }
    }
}

/// The ordered table of the descriptors of all registered content types.
#[derive(Debug)]
pub struct Registry {
    entries: Vec<IDModuleInfo>,
}

impl View for Registry {
    type V = Seq<IDModuleInfoView>;

    closed spec fn view(&self) -> Seq<IDModuleInfoView> {
        self.entries@.map_values(|info: IDModuleInfo| info@)
    }
}

impl Registry {
    #[verifier::type_invariant]
    spec fn inv(self) -> bool {
        well_formed(self@)
    }

    /// The registry with no content type in it.
    pub fn new() -> (registry: Registry)
        ensures
            registry@ == Seq::<IDModuleInfoView>::empty(),
    {
        let registry = Registry { entries: Vec::new() };
        assert(registry@ =~= Seq::<IDModuleInfoView>::empty());
        registry
    }

    /// Every registry is well formed. Calling this costs nothing and tells
    /// the verifier so.
    pub fn well_formed(&self)
        ensures
            well_formed(self@),
    {
        proof {
            use_type_invariant(self);
        }
    }

    /// The number of registered content types.
    pub fn len(&self) -> (n: usize)
        ensures
            n == self@.len(),
    {
        self.entries.len()
    }

    /// The descriptor at position `i` of the table.
    pub fn get(&self, i: usize) -> (info: Option<&IDModuleInfo>)
        ensures
            match info {
                Some(d) => i < self@.len() && d@ == self@[i as int],
                None => i >= self@.len(),
            },
    {
        if i < self.entries.len() {
            Some(&self.entries[i])
        } else {
            None
        }
    }

    /// The position of the descriptor with the identifier `type_id`.
    pub fn position(&self, type_id: &str) -> (at: Option<usize>)
        ensures
            match at {
                Some(i) => i < self@.len() && self@[i as int].type_id == type_id@,
                None => !registered(self@, type_id@),
            },
    {
        let mut i: usize = 0;
        while i < self.entries.len()
            invariant
                i <= self.entries.len(),
                forall|j: int| 0 <= j < i ==> (#[trigger] self@[j]).type_id != type_id@,
            decreases self.entries.len() - i,
        {
            if type_id_eq(self.entries[i].type_id, type_id) {
                return Some(i);
            }
            i += 1;
        }
        None
    }

    /// Adds content type `T` at the end of the table, unless its identifier
    /// is taken; says whether it did.
    pub fn register<T: IDModule>(&mut self) -> (added: bool)
        ensures
            added == !registered(old(self)@, T::spec_type_id()),
            added ==> final(self)@ == old(self)@.push(spec_id_module_info::<T>()),
            !added ==> final(self)@ == old(self)@,
    {
        proof {
            use_type_invariant(&*self);
        }
        let info = into_id_module_info::<T>();
        if self.position(info.type_id).is_some() {
            return false;
        }
        let ghost before = self@;
        // The table is taken out while it grows, so that the registry is
        // well formed at every moment.
        let mut entries: Vec<IDModuleInfo> = Vec::new();
        std::mem::swap(&mut entries, &mut self.entries);
        entries.push(info);
        proof {
            let after = entries@.map_values(|info: IDModuleInfo| info@);
            assert(after =~= before.push(info@));
            assert forall|i: int, j: int| 0 <= i < j < after.len() implies (#[trigger] after[i]).type_id
                != (#[trigger] after[j]).type_id by {
                if j < before.len() {
                    assert(before[i].type_id != before[j].type_id);
                } else {
                    assert(before[i].type_id != info@.type_id);
                }
            }
            assert forall|i: int| 0 <= i < after.len() implies (#[trigger] after[i]).wf() by {
                if i < before.len() {
                    assert(before[i].wf());
                }
            }
        }
        self.entries = entries;
        true
    }
}

/// Whether `first` was registered at an earlier position of `table` than
/// `second`.
pub open spec fn registered_before(
    table: Seq<IDModuleInfoView>,
    first: Seq<char>,
    second: Seq<char>,
) -> bool {
    exists|i: int, j: int|
        0 <= i < j < table.len() && (#[trigger] table[i]).type_id == first && (
        #[trigger] table[j]).type_id == second
}

/// The positions in `table` of the descriptors that carry `tag`, ascending.
pub open spec fn spec_filter_positions(table: Seq<IDModuleInfoView>, tag: Tag) -> Seq<int>
    decreases table.len(),
{
    if table.len() == 0 {
        Seq::empty()
    } else {
        let before = spec_filter_positions(table.drop_last(), tag);
        if table.last().tags.contains(tag) {
            before.push(table.len() - 1)
        } else {
            before
        }
    }
}

/// Filtering by a tag walks the table once: the result names, position by
/// position and in ascending order, exactly the descriptors that carry the
/// tag.
pub proof fn lemma_filter_positions(table: Seq<IDModuleInfoView>, tag: Tag)
    ensures
        spec_filter_positions(table, tag).len() == spec_filter_ids(table, tag).len(),
        forall|k: int|
            0 <= k < spec_filter_positions(table, tag).len() ==> {
                let at = #[trigger] spec_filter_positions(table, tag)[k];
                &&& 0 <= at < table.len()
                &&& table[at].tags.contains(tag)
                &&& spec_filter_ids(table, tag)[k] == table[at].type_id
            },
        forall|a: int, b: int|
            0 <= a < b < spec_filter_positions(table, tag).len() ==> #[trigger] spec_filter_positions(
                table,
                tag,
            )[a] < #[trigger] spec_filter_positions(table, tag)[b],
        forall|i: int|
            0 <= i < table.len() && (#[trigger] table[i]).tags.contains(tag)
                ==> spec_filter_positions(table, tag).contains(i),
    decreases table.len(),
{
    if table.len() > 0 {
        let shorter = table.drop_last();
        lemma_filter_positions(shorter, tag);
        let before = spec_filter_positions(shorter, tag);
        let all = spec_filter_positions(table, tag);
        assert forall|i: int|
            0 <= i < table.len() && (#[trigger] table[i]).tags.contains(tag) implies all.contains(
            i,
        ) by {
            if i < shorter.len() {
                assert(shorter[i].tags.contains(tag));
                let k = choose|k: int| 0 <= k < before.len() && before[k] == i;
                assert(all[k] == i);
            } else {
                assert(all[all.len() - 1] == i);
            }
        }
        assert forall|k: int| 0 <= k < all.len() implies {
            let at = #[trigger] all[k];
            &&& 0 <= at < table.len()
            &&& table[at].tags.contains(tag)
            &&& spec_filter_ids(table, tag)[k] == table[at].type_id
        } by {
            if k < before.len() {
                assert(all[k] == before[k]);
                assert(shorter[before[k]] == table[before[k]]);
            }
        }
        assert forall|a: int, b: int| 0 <= a < b < all.len() implies #[trigger] all[a]
            < #[trigger] all[b] by {
            assert(all[a] == before[a]);
            if b < before.len() {
                assert(all[b] == before[b]);
            }
        }
    }
}

/// Filtering by a tag yields exactly the identifiers of the content types
/// that carry the tag, each once, in the order of registration.
pub proof fn lemma_filter_ids(table: Seq<IDModuleInfoView>, tag: Tag)
    requires
        well_formed(table),
    ensures
        forall|id: Seq<char>|
            spec_filter_ids(table, tag).contains(id) <==> (spec_lookup(table, id) matches Some(d)
                && d.tags.contains(tag)),
        spec_filter_ids(table, tag).no_duplicates(),
        forall|a: int, b: int|
            0 <= a < b < spec_filter_ids(table, tag).len() ==> #[trigger] registered_before(
                table,
                spec_filter_ids(table, tag)[a],
                spec_filter_ids(table, tag)[b],
            ),
{
    lemma_filter_positions(table, tag);
    let ids = spec_filter_ids(table, tag);
    let at = spec_filter_positions(table, tag);
    assert forall|id: Seq<char>| ids.contains(id) <==> (spec_lookup(table, id) matches Some(d)
        && d.tags.contains(tag)) by {
        lemma_lookup(table, id);
        if ids.contains(id) {
            let k = choose|k: int| 0 <= k < ids.len() && ids[k] == id;
            let i = at[k];
            assert(table[i].type_id == id);
        }
        if spec_lookup(table, id) matches Some(d) && d.tags.contains(tag) {
            let d = spec_lookup(table, id).unwrap();
            let i = choose|i: int| 0 <= i < table.len() && table[i] == d;
            assert(table[i].tags.contains(tag));
            let k = choose|k: int| 0 <= k < at.len() && at[k] == i;
            assert(ids[k] == id);
        }
    }
    assert forall|a: int, b: int| 0 <= a < ids.len() && 0 <= b < ids.len() && a != b implies ids[a]
        != ids[b] by {
        let i = at[a];
        let j = at[b];
        if a < b {
            assert(at[a] < at[b]);
            assert(table[i].type_id != table[j].type_id);
        } else {
            assert(at[b] < at[a]);
            assert(table[j].type_id != table[i].type_id);
        }
    }
    assert forall|a: int, b: int| 0 <= a < b < ids.len() implies #[trigger] registered_before(
        table,
        ids[a],
        ids[b],
    ) by {
        let i = at[a];
        let j = at[b];
        assert(at[a] < at[b]);
        assert(table[i].type_id == ids[a] && table[j].type_id == ids[b]);
    }
}

/// Finds the descriptor of `type_id`. An unknown identifier is no error:
/// identifiers come from outside and may be stale or foreign.
pub fn get_type_info_ref_by_type_id<'r>(registry: &'r Registry, type_id: &str) -> (found: Option<
    &'r IDModuleInfo,
>)
    ensures
        found is None <==> !registered(registry@, type_id@),
        match found {
            Some(info) => spec_lookup(registry@, type_id@) == Some(info@) && info@.type_id
                == type_id@,
            None => spec_lookup(registry@, type_id@) is None,
        },
{
    proof {
        use_type_invariant(registry);
        lemma_lookup(registry@, type_id@);
    }
    match registry.position(type_id) {
        Some(i) => Some(&registry.entries[i]),
        None => None,
    }
}

/// Finds the descriptor of `type_id` and hands out a copy of it.
pub fn get_type_info_by_type_id(registry: &Registry, type_id: &str) -> (found: Option<
    IDModuleInfo,
>)
    ensures
        found is None <==> !registered(registry@, type_id@),
        match found {
            Some(info) => spec_lookup(registry@, type_id@) == Some(info@) && info@.type_id
                == type_id@,
            None => spec_lookup(registry@, type_id@) is None,
        },
{
    match get_type_info_ref_by_type_id(registry, type_id) {
        Some(info) => Some(*info),
        None => None,
    }
}

/// The descriptor of content type `T`, which must be registered.
pub fn get_type_info_ref_by_id_module<'r, T: IDModule>(registry: &'r Registry) -> (info:
    &'r IDModuleInfo)
    requires
        registered(registry@, T::spec_type_id()),
    ensures
        spec_lookup(registry@, T::spec_type_id()) == Some(info@),
        info@.type_id == T::spec_type_id(),
{
    get_type_info_ref_by_type_id(registry, T::type_id()).unwrap()
}

/// The identifiers of the content types that carry `tag`, in the order in
/// which they were registered.
pub fn filter_ids_by_tag(registry: &Registry, tag: Tag) -> (ids: Vec<TypeID>)
    ensures
        id_views(ids@) == spec_filter_ids(registry@, tag),
{
    let mut ids: Vec<TypeID> = Vec::with_capacity(4);
    let mut i: usize = 0;
    assert(registry@.take(0) =~= Seq::<IDModuleInfoView>::empty());
    assert(id_views(ids@) =~= Seq::<Seq<char>>::empty());
    while i < registry.entries.len()
        invariant
            i <= registry.entries.len(),
            id_views(ids@) == spec_filter_ids(registry@.take(i as int), tag),
        decreases registry.entries.len() - i,
    {
        let ghost seen = id_views(ids@);
        let info = &registry.entries[i];
        proof {
            let upto = registry@.take(i + 1);
            assert(upto.drop_last() =~= registry@.take(i as int));
            assert(upto.last() == info@);
        }
        if info.has_tag(tag) {
            ids.push(info.type_id);
            assert(id_views(ids@) =~= seen.push(info@.type_id));
        }
        i += 1;
    }
    assert(registry@.take(i as int) =~= registry@);
    ids
}

/// The table of the content types that this build ships, in the order of
/// their registration.
pub open spec fn spec_feature_map() -> Seq<IDModuleInfoView> {
    seq![spec_id_module_info::<stone::Module>(), spec_id_module_info::<exp_orb::Module>()]
}

/// Whether some descriptor of `table` files a bundle for payloads of `kind`
/// under the role of that kind.
pub open spec fn dispatches(table: Seq<IDModuleInfoView>, kind: PayloadKind) -> bool {
    exists|i: int|
        0 <= i < table.len() && (#[trigger] table[i]).functions(kind.spec_role()) is Some
            && table[i].functions(kind.spec_role()).unwrap().kind == kind
}

/// Builds the registry of the content types that this build ships. Run it
/// once, before anything is looked up. Every payload representation of the
/// build is reachable through the table it makes: none was written and then
/// forgotten.
pub fn feature_map() -> (registry: Registry)
    ensures
        registry@ == spec_feature_map(),
        forall|kind: PayloadKind| dispatches(registry@, kind),
{
    let mut registry = Registry::new();
    proof {
        reveal_strlit("stone");
        reveal_strlit("exp_orb");
        assert("stone"@.len() != "exp_orb"@.len());
    }
    let stone_added = registry.register::<stone::Module>();
    assert(stone_added);
    assert(registry@[0] == spec_id_module_info::<stone::Module>());
    let exp_orb_added = registry.register::<exp_orb::Module>();
    assert(exp_orb_added);
    assert(registry@ =~= spec_feature_map());
    proof {
        assert forall|kind: PayloadKind| dispatches(registry@, kind) by {
            match kind {
                PayloadKind::StoneBlock => {
                    assert(registry@[0].functions(Role::Block) is Some);
                },
                PayloadKind::StoneItem => {
                    assert(registry@[0].functions(Role::Item) is Some);
                },
                PayloadKind::ExpOrbEntity => {
                    assert(registry@[1].functions(Role::Entity) is Some);
                },
            }
        }
    }
    registry
}

} // verus!
