use ic_stable_structures::{DefaultMemoryImpl, StableBTreeMap};
use vstd::prelude::*;

verus! {

/// The durable table of encoded project records: an
/// `ic_stable_structures::StableBTreeMap` from project identifier to the record's
/// bytes, living in stable memory. Nothing of it is visible to the verifier but
/// what `table_contents` names.
#[verifier::external_body]
pub struct ProjectTable {
    map: StableBTreeMap<u64, Vec<u8>, DefaultMemoryImpl>,
}

/// What a table holds: the bytes stored under each key.
pub uninterp spec fn table_contents(table: ProjectTable) -> Map<u64, Seq<u8>>;

/// The contents of a table that holds nothing.
pub open spec fn empty_table() -> Map<u64, Seq<u8>> {
    Map::empty()
}

impl ProjectTable {
    /// Calls `StableBTreeMap::new` on the default memory. `new` does not read the
    /// memory: it writes a fresh header with no root and length zero, so the table
    /// it returns holds nothing, whatever the memory held before.
    #[verifier::external_body]
    pub(crate) fn create() -> (table: ProjectTable)
        ensures
            table_contents(table) == empty_table(),
    {
        ProjectTable { map: StableBTreeMap::new(DefaultMemoryImpl::default()) }
    }

    /// Calls `StableBTreeMap::insert`, which stores `value` under `key` and replaces
    /// what was stored there before; every other key keeps its value.
    #[verifier::external_body]
    pub(crate) fn put(&mut self, key: u64, value: Vec<u8>)
        ensures
            table_contents(*final(self)) == table_contents(*old(self)).insert(key, value@),
    {
        self.map.insert(key, value);
    }

    /// Calls `StableBTreeMap::get`, which returns a copy of the value stored under
    /// `key`, or `None` where the key is absent.
    #[verifier::external_body]
    pub(crate) fn fetch(&self, key: u64) -> (value: Option<Vec<u8>>)
        ensures
            value is Some <==> table_contents(*self).dom().contains(key),
            value is Some ==> value.unwrap()@ == table_contents(*self)[key],
    {
        self.map.get(&key)
    }

    /// Calls `StableBTreeMap::iter` and collects what it yields. The iterator walks
    /// the entries of the map sorted by key: each key once, in increasing order,
    /// with the value stored under it.
    #[verifier::external_body]
    pub(crate) fn entries(&self) -> (entries: Vec<(u64, Vec<u8>)>)
        ensures
            forall|i: int, j: int| 0 <= i < j < entries@.len() ==> entries@[i].0 < entries@[j].0,
            forall|i: int|
                0 <= i < entries@.len() ==> table_contents(*self).dom().contains(
                    #[trigger] entries@[i].0,
                ) && table_contents(*self)[entries@[i].0] == entries@[i].1@,
            forall|key: u64| #[trigger]
                table_contents(*self).dom().contains(key) ==> exists|i: int|
                    0 <= i < entries@.len() && #[trigger] entries@[i].0 == key,
    {
        self.map.iter().collect()
    }
}

} // verus!
