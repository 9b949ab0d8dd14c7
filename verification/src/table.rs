//! The capability table: a registry of what an instance was granted, by
//! handle.
//!
//! The table records which capabilities are registered and under which
//! handles; the resources themselves stay with the engine. The slots are
//! kept by `wasmtime::component::ResourceTable`. This module states what
//! that table does, as far as the registry relies on it, and adds what makes
//! a handle good for one registration only.

use crate::capabilities::Capability;
use vstd::prelude::*;
use wasmtime::component::Resource;
use wasmtime::component::ResourceTable;

verus! {

/// A handle to a registered capability. Only `CapabilityTable::register`
/// makes one, and it makes none twice.
#[derive(Clone, Copy, Debug, PartialEq, Eq, Structural)]
pub struct Handle {
    index: u32,
    serial: u64,
}

impl Handle {
    /// The integer that stands for this handle on the guest's side.
    pub closed spec fn spec_index(&self) -> u32 {
        self.index
    }

    /// How many handles the table had issued before this one.
    pub closed spec fn spec_serial(&self) -> u64 {
        self.serial
    }

    /// The integer that stands for this handle on the guest's side.
    #[verifier::when_used_as_spec(spec_index)]
    pub fn index(&self) -> (index: u32)
        ensures
            index == self.spec_index(),
    {
        self.index
    }

    /// How many handles the table had issued before this one.
    #[verifier::when_used_as_spec(spec_serial)]
    pub fn serial(&self) -> (serial: u64)
        ensures
            serial == self.spec_serial(),
    {
        self.serial
    }
}

/// What a slot of the table holds: a capability, and the serial number of
/// the handle under which it was registered.
#[derive(Clone, Copy, Debug, PartialEq, Eq, Structural)]
pub struct Registration {
    pub capability: Capability,
    pub serial: u64,
}

#[verifier::external_type_specification]
#[verifier::external_body]
pub struct ExResourceTable(ResourceTable);

/// The occupied slots of a table, by key.
pub uninterp spec fn table_entries(table: ResourceTable) -> Map<u32, Registration>;

/// Whether every occupied slot of a table holds a `Registration` that was
/// pushed without a parent. A `ResourceTable` takes items of any type and can
/// tie an item to a parent; what is stated below of `get` and `delete` holds
/// of tables that were never used that way. A table from `table_new` that
/// only `table_push` and `table_delete` have changed is one.
pub uninterp spec fn table_uniform(table: ResourceTable) -> bool;

/// `ResourceTable::new`: a table without slots.
#[verifier::external_body]
fn table_new() -> (made: ResourceTable)
    ensures
        table_uniform(made),
        table_entries(made) == (Map::<u32, Registration>::empty()),
{
    ResourceTable::new()
}

/// `ResourceTable::push`: puts `item` into a slot that was not occupied and
/// returns the slot's key. The other slots are left alone. Which free slot is
/// taken is not stated. It gives up only when all 2^32 keys are occupied,
/// and then changes nothing. It does not panic.
#[verifier::external_body]
fn table_push(table: &mut ResourceTable, item: Registration) -> (key: Option<u32>)
    requires
        table_uniform(*old(table)),
        table_entries(*old(table)).dom().finite(),
    ensures
        table_uniform(*final(table)),
        key is Some <==> table_entries(*old(table)).dom().len() < 0x1_0000_0000,
        match key {
            Some(k) => !table_entries(*old(table)).contains_key(k) && table_entries(*final(table))
                == table_entries(*old(table)).insert(k, item),
            None => table_entries(*final(table)) == table_entries(*old(table)),
        },
    no_unwind
{
    match table.push(item) {
        Ok(resource) => Some(resource.rep()),
        Err(_) => None,
    }
}

/// `ResourceTable::get`: the item in the slot `key`, if that slot is occupied.
#[verifier::external_body]
fn table_get(table: &ResourceTable, key: u32) -> (item: Option<Registration>)
    requires
        table_uniform(*table),
    ensures
        item is Some <==> table_entries(*table).contains_key(key),
        item is Some ==> item->0 == table_entries(*table)[key],
{
    match table.get(&Resource::<Registration>::new_borrow(key)) {
        Ok(item) => Some(*item),
        Err(_) => None,
    }
}

/// `ResourceTable::delete`: empties the slot `key` and returns what it held,
/// if it was occupied; otherwise changes nothing. On a uniform table it does
/// not panic.
#[verifier::external_body]
fn table_delete(table: &mut ResourceTable, key: u32) -> (item: Option<Registration>)
    requires
        table_uniform(*old(table)),
    ensures
        table_uniform(*final(table)),
        item is Some <==> table_entries(*old(table)).contains_key(key),
        match item {
            Some(held) => held == table_entries(*old(table))[key] && table_entries(*final(table))
                == table_entries(*old(table)).remove(key),
            None => table_entries(*final(table)) == table_entries(*old(table)),
        },
    no_unwind
{
    match table.delete(Resource::<Registration>::new_own(key)) {
        Ok(item) => Some(item),
        Err(_) => None,
    }
}

/// The live handles of a table with these slots, and what they stand for: a
/// handle is live when its slot is occupied by a registration of its own
/// serial number.
spec fn live_of(entries: Map<u32, Registration>) -> Map<Handle, Capability> {
    Map::new(
        |h: Handle| entries.contains_key(h.index) && entries[h.index].serial == h.serial,
        |h: Handle| entries[h.index].capability,
    )
}

proof fn lemma_live_empty()
    ensures
        live_of(Map::<u32, Registration>::empty()) == Map::<Handle, Capability>::empty(),
{
    assert(live_of(Map::<u32, Registration>::empty()) =~= Map::<Handle, Capability>::empty());
}

proof fn lemma_live_insert(entries: Map<u32, Registration>, key: u32, item: Registration)
    requires
        !entries.contains_key(key),
    ensures
        !live_of(entries).contains_key(Handle { index: key, serial: item.serial }),
        live_of(entries.insert(key, item)) == live_of(entries).insert(
            Handle { index: key, serial: item.serial },
            item.capability,
        ),
{
    assert(live_of(entries.insert(key, item)) =~= live_of(entries).insert(
        Handle { index: key, serial: item.serial },
        item.capability,
    ));
}

proof fn lemma_live_remove(entries: Map<u32, Registration>, key: u32)
    requires
        entries.contains_key(key),
    ensures
        live_of(entries).contains_key(Handle { index: key, serial: entries[key].serial }),
        live_of(entries.remove(key)) == live_of(entries).remove(
            Handle { index: key, serial: entries[key].serial },
        ),
{
    assert(live_of(entries.remove(key)) =~= live_of(entries).remove(
        Handle { index: key, serial: entries[key].serial },
    ));
}

/// The registry of one instance: from handles to the capabilities they
/// stand for. It counts the handles it issues, and a handle carries its
/// number: so a handle that was released stays dead, also when its slot is
/// taken again.
pub struct CapabilityTable {
    slots: ResourceTable,
    issued: u64,
}

impl View for CapabilityTable {
    type V = Map<Handle, Capability>;

    closed spec fn view(&self) -> Map<Handle, Capability> {
        live_of(table_entries(self.slots))
    }
}

impl CapabilityTable {
    #[verifier::type_invariant]
    closed spec fn inv(&self) -> bool {
        &&& table_uniform(self.slots)
        &&& table_entries(self.slots).dom().finite()
        &&& forall|k: u32| #[trigger]
            table_entries(self.slots).contains_key(k) ==> table_entries(self.slots)[k].serial
                < self.issued
        &&& self@.dom().finite()
        &&& self@.dom().len() == table_entries(self.slots).dom().len()
    }

    /// How many handles this table has issued so far.
    pub closed spec fn spec_issued(&self) -> u64 {
        self.issued
    }

    /// Whether `handle` stands for a registered capability.
    pub open spec fn is_live(&self, handle: Handle) -> bool {
        self@.contains_key(handle)
    }

    /// An empty table: no handle is live, and none was issued.
    pub fn new() -> (table: Self)
        ensures
            table@ == (Map::<Handle, Capability>::empty()),
            table.spec_issued() == 0,
    {
        proof {
            lemma_live_empty();
        }
        CapabilityTable { slots: table_new(), issued: 0 }
    }

    /// How many handles this table has issued so far.
    pub fn issued(&self) -> (issued: u64)
        ensures
            issued == self.spec_issued(),
    {
        self.issued
    }

    /// Registers `capability` under a new handle and leaves every other
    /// handle as it was. The new handle carries the number of handles issued
    /// before it, which no earlier handle of this table carries: a handle is
    /// never issued twice, whatever was released in between. Fails only
    /// when all 2^32 slots are taken or the count of handles is at its end,
    /// and then changes nothing.
    pub fn register(&mut self, capability: Capability) -> (handle: Option<Handle>)
        ensures
            final(self)@.dom().finite(),
            handle is Some <==> old(self)@.dom().len() < 0x1_0000_0000 && old(self).spec_issued()
                < u64::MAX,
            match handle {
                Some(h) => {
                    &&& h.spec_serial() == old(self).spec_issued()
                    &&& !old(self).is_live(h)
                    &&& final(self)@ == old(self)@.insert(h, capability)
                    &&& final(self).spec_issued() == old(self).spec_issued() + 1
                },
                None => final(self)@ == old(self)@ && final(self).spec_issued() == old(
                    self,
                ).spec_issued(),
            },
            forall|live: Handle| #[trigger]
                final(self).is_live(live) ==> live.spec_serial() < final(self).spec_issued(),
    {
        proof {
            use_type_invariant(&*self);
        }
        if self.issued == u64::MAX {
            return None;
        }
        let serial = self.issued;
        let item = Registration { capability, serial };
        let ghost entries = table_entries(self.slots);
        proof {
            assert forall|k: u32| !entries.contains_key(k) implies !live_of(entries).contains_key(
                Handle { index: k, serial },
            ) && live_of(#[trigger] entries.insert(k, item)) == live_of(entries).insert(
                Handle { index: k, serial },
                capability,
            ) by {
                lemma_live_insert(entries, k, item);
            }
        }
        self.issued = serial + 1;
        match table_push(&mut self.slots, item) {
            Some(index) => Some(Handle { index, serial }),
            None => {
                self.issued = serial;
                None
            },
        }
    }

    /// The capability that `handle` stands for, if it is live. A live handle
    /// is one that this table issued.
    pub fn resolve(&self, handle: Handle) -> (capability: Option<Capability>)
        ensures
            capability is Some <==> self.is_live(handle),
            capability is Some ==> capability->0 == self@[handle],
            capability is Some ==> handle.spec_serial() < self.spec_issued(),
    {
        proof {
            use_type_invariant(self);
        }
        match table_get(&self.slots, handle.index) {
            Some(item) => if item.serial == handle.serial {
                Some(item.capability)
            } else {
                None
            },
            None => None,
        }
    }

    /// Ends the life of `handle` and returns what it stood for. A handle
    /// that is not live releases nothing. No handle is issued by this.
    pub fn release(&mut self, handle: Handle) -> (capability: Option<Capability>)
        ensures
            final(self)@.dom().finite(),
            final(self).spec_issued() == old(self).spec_issued(),
            capability is Some <==> old(self).is_live(handle),
            match capability {
                Some(held) => held == old(self)@[handle] && final(self)@ == old(self)@.remove(
                    handle,
                ),
                None => final(self)@ == old(self)@,
            },
    {
        proof {
            use_type_invariant(&*self);
        }
        let live = match table_get(&self.slots, handle.index) {
            Some(item) => item.serial == handle.serial,
            None => false,
        };
        if !live {
            return None;
        }
        proof {
            lemma_live_remove(table_entries(self.slots), handle.index);
        }
        match table_delete(&mut self.slots, handle.index) {
            Some(item) => Some(item.capability),
            None => None,
        }
    }
}

/// Whether no two handles of `handles` are the same.
pub open spec fn distinct_handles(handles: Seq<Handle>) -> bool {
    forall|i: int, j: int| 0 <= i < j < handles.len() ==> handles[i] != handles[j]
}

/// The handles that one instance holds, in the order in which it registered
/// them, with the table that resolves them.
pub struct Bindings {
    table: CapabilityTable,
    handles: Vec<Handle>,
}

impl Bindings {
    #[verifier::type_invariant]
    closed spec fn inv(&self) -> bool {
        &&& distinct_handles(self.handles@)
        &&& forall|i: int|
            0 <= i < self.handles@.len() ==> self.table.is_live(#[trigger] self.handles@[i])
        &&& forall|h: Handle| #[trigger]
            self.table@.contains_key(h) ==> exists|i: int|
                0 <= i < self.handles@.len() && #[trigger] self.handles@[i] == h
    }

    /// The handles held, in order of registration.
    pub closed spec fn spec_handles(&self) -> Seq<Handle> {
        self.handles@
    }

    /// What each handle stands for, in the same order.
    pub closed spec fn spec_capabilities(&self) -> Seq<Capability> {
        Seq::new(self.handles@.len(), |i: int| self.table@[self.handles@[i]])
    }

    /// What `handle` stands for, if it is one of the handles held.
    pub closed spec fn spec_resolve(&self, handle: Handle) -> Option<Capability> {
        if self.table.is_live(handle) {
            Some(self.table@[handle])
        } else {
            None
        }
    }

    /// No handle at all.
    pub fn empty() -> (bindings: Self)
        ensures
            bindings.spec_handles() == Seq::<Handle>::empty(),
            bindings.spec_capabilities() == Seq::<Capability>::empty(),
    {
        let bindings = Bindings { table: CapabilityTable::new(), handles: Vec::new() };
        assert(bindings.spec_capabilities() =~= Seq::<Capability>::empty());
        bindings
    }

    /// Registers every capability of `list`, in order, in a table of its
    /// own. There is a handle for each as long as the list has no more than
    /// 2^32 entries.
    pub fn bind(list: &Vec<Capability>) -> (bindings: Option<Self>)
        ensures
            bindings is Some <==> list@.len() <= 0x1_0000_0000,
            bindings is Some ==> bindings->0.spec_capabilities() == list@,
            bindings is Some ==> distinct_handles(bindings->0.spec_handles()),
    {
        if list.len() as u64 > 0x1_0000_0000 {
            return None;
        }
        let mut table = CapabilityTable::new();
        let mut handles: Vec<Handle> = Vec::new();
        let mut i: usize = 0;
        while i < list.len()
            invariant
                i <= list.len(),
                list@.len() <= 0x1_0000_0000,
                handles@.len() == i,
                table@.dom().finite(),
                table@.dom().len() == i,
                table.spec_issued() == i,
                distinct_handles(handles@),
                forall|k: int| 0 <= k < i ==> table.is_live(#[trigger] handles@[k]),
                forall|k: int| 0 <= k < i ==> table@[#[trigger] handles@[k]] == list@[k],
                forall|h: Handle| #[trigger]
                    table@.contains_key(h) ==> exists|k: int|
                        0 <= k < i && #[trigger] handles@[k] == h,
            decreases list.len() - i,
        {
            let ghost before = table@;
            let ghost held = handles@;
            match table.register(list[i]) {
                Some(handle) => {
                    handles.push(handle);
                    assert forall|h: Handle| #[trigger] table@.contains_key(h) implies exists|k: int|
                        0 <= k < i + 1 && #[trigger] handles@[k] == h by {
                        if h == handle {
                            assert(handles@[i as int] == h);
                        } else {
                            assert(before.contains_key(h));
                            let k = choose|k: int| 0 <= k < i && #[trigger] held[k] == h;
                            assert(handles@[k] == h);
                        }
                    }
                    assert forall|a: int, b: int| 0 <= a < b < handles@.len() implies handles@[a]
                        != handles@[b] by {
                        if b == i {
                            assert(before.contains_key(held[a]));
                        } else {
                            assert(held[a] != held[b]);
                        }
                    }
                },
                None => {
                    assert(false);
                },
            }
            i += 1;
        }
        let bindings = Bindings { table, handles };
        assert(bindings.spec_capabilities() =~= list@);
        Some(bindings)
    }

    /// The handles held, in order of registration: no two are the same.
    pub fn handles(&self) -> (handles: &Vec<Handle>)
        ensures
            handles@ == self.spec_handles(),
            handles@.len() == self.spec_capabilities().len(),
            distinct_handles(handles@),
            forall|i: int|
                0 <= i < handles@.len() ==> self.spec_resolve(#[trigger] handles@[i]) == Some(
                    self.spec_capabilities()[i],
                ),
    {
        proof {
            use_type_invariant(self);
        }
        &self.handles
    }

    /// What `handle` stands for. Only a handle that is held resolves.
    pub fn resolve(&self, handle: Handle) -> (capability: Option<Capability>)
        ensures
            capability == self.spec_resolve(handle),
            self.spec_handles().len() == self.spec_capabilities().len(),
            capability is Some ==> exists|i: int|
                0 <= i < self.spec_handles().len() && #[trigger] self.spec_handles()[i] == handle
                    && self.spec_capabilities()[i] == capability->0,
    {
        proof {
            use_type_invariant(self);
        }
        let capability = self.table.resolve(handle);
        proof {
            if capability is Some {
                let i = choose|i: int|
                    0 <= i < self.handles@.len() && #[trigger] self.handles@[i] == handle;
                assert(self.spec_handles()[i] == handle);
            }
        }
        capability
    }

    /// Releases every handle, each once, and returns what they stood for in
    /// the order in which they were registered.
    pub fn release_all(self) -> (released: Vec<Capability>)
        ensures
            released@ == self.spec_capabilities(),
    {
        proof {
            use_type_invariant(&self);
        }
        let ghost held = self.spec_capabilities();
        let Bindings { mut table, handles } = self;
        let mut released: Vec<Capability> = Vec::new();
        let mut i: usize = 0;
        while i < handles.len()
            invariant
                i <= handles.len(),
                held.len() == handles@.len(),
                distinct_handles(handles@),
                released@ == held.take(i as int),
                forall|k: int| i <= k < handles@.len() ==> table.is_live(#[trigger] handles@[k]),
                forall|k: int| i <= k < handles@.len() ==> table@[#[trigger] handles@[k]] == held[k],
            decreases handles.len() - i,
        {
            match table.release(handles[i]) {
                Some(capability) => {
                    released.push(capability);
                    assert(released@ =~= held.take(i + 1));
                },
                None => {
                    assert(false);
                },
            }
            i += 1;
        }
        assert(held.take(handles@.len() as int) =~= held);
        released
    }
}

} // verus!
