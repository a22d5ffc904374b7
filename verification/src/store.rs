use crate::project::{decoded_record, LaunchpadProject, ProjectModel};
use crate::table::{table_contents, ProjectTable};
use candid::Principal;
use vstd::prelude::*;

verus! {

/// The mathematical value of a project store: the record kept under each
/// identifier, and the next identifier to hand out.
pub ghost struct StoreModel {
    pub projects: Map<u64, ProjectModel>,
    pub next_id: u64,
}

impl StoreModel {
    /// The store that holds nothing and has handed out no identifier.
    pub open spec fn empty() -> StoreModel {
        StoreModel { projects: Map::empty(), next_id: 0 }
    }

    /// This store after it has handed out its next identifier.
    pub open spec fn after_allocation(self) -> StoreModel
        recommends
            self.next_id < u64::MAX,
    {
        StoreModel { next_id: (self.next_id + 1) as u64, ..self }
    }

    /// This store with `record` kept under `id`, in place of what was there.
    pub open spec fn with_record(self, id: u64, record: ProjectModel) -> StoreModel {
        StoreModel { projects: self.projects.insert(id, record), ..self }
    }

    /// This store after the creation of a project with the given description by
    /// `creator`: the next identifier is handed out, and a fresh record is kept
    /// under it.
    pub open spec fn after_creation(
        self,
        name: Seq<char>,
        symbol: Seq<char>,
        description: Seq<char>,
        total_supply: u64,
        target_funding: u64,
        creator: Principal,
    ) -> StoreModel
        recommends
            self.next_id < u64::MAX,
    {
        self.after_allocation().with_record(
            self.next_id,
            ProjectModel::fresh(
                self.next_id,
                name,
                symbol,
                description,
                total_supply,
                target_funding,
                creator,
            ),
        )
    }

    /// Every record is kept under its own identifier, every identifier in use has
    /// been handed out, and every record's launch outcome matches its status.
    pub open spec fn consistent(self) -> bool {
        forall|id: u64| #[trigger]
            self.projects.contains_key(id) ==> {
                &&& id < self.next_id
                &&& self.projects[id].id == id
                &&& self.projects[id].outcome_matches_status()
            }
    }
}

/// `records` lists what `projects` holds: one record for each key, in the
/// increasing order of the keys `keys`.
pub open spec fn lists_by_key(
    projects: Map<u64, ProjectModel>,
    keys: Seq<u64>,
    records: Seq<ProjectModel>,
) -> bool {
    &&& keys.len() == records.len()
    &&& forall|i: int, j: int| 0 <= i < j < keys.len() ==> keys[i] < keys[j]
    &&& forall|i: int|
        0 <= i < keys.len() ==> projects.contains_key(#[trigger] keys[i]) && projects[keys[i]]
            == records[i]
    &&& forall|id: u64| #[trigger]
        projects.contains_key(id) ==> exists|i: int| 0 <= i < keys.len() && #[trigger] keys[i] == id
}

/// The values of a sequence of records.
pub open spec fn record_models(records: Seq<LaunchpadProject>) -> Seq<ProjectModel> {
    records.map_values(|record: LaunchpadProject| record@)
}

/// The durable mapping from project identifier to project record, together with
/// the counter from which identifiers are handed out. No record is ever removed.
pub struct ProjectStore {
    table: ProjectTable,
    next_id: u64,
}

impl View for ProjectStore {
    type V = StoreModel;

    closed spec fn view(&self) -> StoreModel {
        StoreModel {
            projects: Map::new(
                |id: u64| table_contents(self.table).dom().contains(id),
                |id: u64| decoded_record(table_contents(self.table)[id]).unwrap(),
            ),
            next_id: self.next_id,
        }
    }
}

impl ProjectStore {
    /// The store is well formed: whatever its table holds under a key is the
    /// encoding of a record. `new` establishes this and every operation keeps it.
    pub closed spec fn wf(&self) -> bool {
        forall|id: u64| #[trigger]
            table_contents(self.table).dom().contains(id) ==> decoded_record(
                table_contents(self.table)[id],
            ) is Some
    }

    /// A store that holds no project and has handed out no identifier.
    pub fn new() -> (store: ProjectStore)
        ensures
            store.wf(),
            store@ == StoreModel::empty(),
    {
        let store = ProjectStore { table: ProjectTable::create(), next_id: 0 };
        assert(store@.projects =~= Map::<u64, ProjectModel>::empty());
        store
    }

    /// The identifier that the next allocation will return.
    pub fn next_id(&self) -> (id: u64)
        ensures
            id == self@.next_id,
    {
        self.next_id
    }

    /// Hands out a fresh identifier: one greater than every identifier handed out
    /// before. No record changes.
    pub fn allocate_id(&mut self) -> (id: u64)
        requires
            old(self).wf(),
            old(self)@.next_id < u64::MAX,
        ensures
            final(self).wf(),
            id == old(self)@.next_id,
            final(self)@ == old(self)@.after_allocation(),
    {
        let id = self.next_id;
        self.next_id = id + 1;
        id
    }

    /// Creates a project for `caller`: hands out a fresh identifier and stores under
    /// it a record with the given description, no funding and no launch. Returns
    /// the identifier.
    pub fn create_project(
        &mut self,
        caller: Principal,
        name: String,
        symbol: String,
        description: String,
        total_supply: u64,
        target_funding: u64,
    ) -> (id: u64)
        requires
            old(self).wf(),
            old(self)@.next_id < u64::MAX,
        ensures
            final(self).wf(),
            id == old(self)@.next_id,
            final(self)@ == old(self)@.after_creation(
                name@,
                symbol@,
                description@,
                total_supply,
                target_funding,
                caller,
            ),
    {
        let id = self.allocate_id();
        let project = LaunchpadProject::new(
            id,
            name,
            symbol,
            description,
            total_supply,
            target_funding,
            caller,
        );
        self.insert(id, project);
        id
    }

    /// Stores `record` under `id`, in place of whatever was stored there.
    pub fn insert(&mut self, id: u64, record: LaunchpadProject)
        requires
            old(self).wf(),
        ensures
            final(self).wf(),
            final(self)@ == old(self)@.with_record(id, record@),
    {
        let bytes = record.to_bytes();
        self.table.put(id, bytes);
        assert(self@.projects =~= old(self)@.projects.insert(id, record@));
    }

    /// The record stored under `id`, if there is one. The store does not change.
    pub fn get(&self, id: u64) -> (found: Option<LaunchpadProject>)
        requires
            self.wf(),
        ensures
            match found {
                Some(record) => self@.projects.contains_key(id) && record@ == self@.projects[id],
                None => !self@.projects.contains_key(id),
            },
    {
        match self.table.fetch(id) {
            Some(bytes) => LaunchpadProject::from_bytes(bytes.as_slice()),
            None => None,
        }
    }

    /// All records of the store, in the increasing order of the identifiers they
    /// are stored under. The store does not change.
    pub fn list(&self) -> (records: Vec<LaunchpadProject>)
        requires
            self.wf(),
        ensures
            exists|keys: Seq<u64>| lists_by_key(self@.projects, keys, record_models(records@)),
            records@.len() == self@.projects.dom().len(),
            self@.projects.dom().finite(),
    {
        let entries = self.table.entries();
        let ghost keys = entries@.map_values(|entry: (u64, Vec<u8>)| entry.0);
        let mut records: Vec<LaunchpadProject> = Vec::new();
        let mut i: usize = 0;
        while i < entries.len()
            invariant
                0 <= i <= entries@.len(),
                records@.len() == i,
                forall|k: int|
                    0 <= k < entries@.len() ==> self@.projects.contains_key(
                        #[trigger] entries@[k].0,
                    ) && decoded_record(entries@[k].1@) == Some(self@.projects[entries@[k].0]),
                forall|k: int| 0 <= k < i ==> (#[trigger] records@[k])@ == self@.projects[entries@[k].0],
            decreases entries@.len() - i,
        {
            assert(self@.projects.contains_key(entries@[i as int].0));
            if let Some(record) = LaunchpadProject::from_bytes(entries[i].1.as_slice()) {
                records.push(record);
            }
            i += 1;
        }
        proof {
            let models = record_models(records@);
            assert forall|k: int| 0 <= k < keys.len() implies self@.projects.contains_key(
                #[trigger] keys[k],
            ) && self@.projects[keys[k]] == models[k] by {
                assert(self@.projects.contains_key(entries@[k].0));
                assert(records@[k]@ == self@.projects[entries@[k].0]);
            }
            assert forall|id: u64| #[trigger] self@.projects.contains_key(id) implies exists|k: int|
                0 <= k < keys.len() && #[trigger] keys[k] == id by {
                assert(table_contents(self.table).dom().contains(id));
                let k = choose|k: int| 0 <= k < entries@.len() && #[trigger] entries@[k].0 == id;
                assert(keys[k] == id);
            }
            assert(lists_by_key(self@.projects, keys, models));
            lemma_listing_length(self@.projects, keys, models);
        }
        records
    }
}

/// A listing by key has as many records as the map has keys, and a map that can
/// be listed has finitely many.
pub proof fn lemma_listing_length(
    projects: Map<u64, ProjectModel>,
    keys: Seq<u64>,
    records: Seq<ProjectModel>,
)
    requires
        lists_by_key(projects, keys, records),
    ensures
        projects.dom().finite(),
        records.len() == projects.dom().len(),
{
    assert(keys.no_duplicates());
    assert(keys.to_set() =~= projects.dom()) by {
        assert forall|id: u64| keys.to_set().contains(id) <==> projects.dom().contains(id) by {
            if projects.dom().contains(id) {
                assert(projects.contains_key(id));
                let i = choose|i: int| 0 <= i < keys.len() && #[trigger] keys[i] == id;
                assert(keys.contains(id));
            }
            if keys.to_set().contains(id) {
                assert(keys.contains(id));
                let i = choose|i: int| 0 <= i < keys.len() && keys[i] == id;
                assert(projects.contains_key(keys[i]));
            }
        }
    }
    keys.unique_seq_to_set();
    vstd::seq_lib::seq_to_set_is_finite(keys);
}

} // verus!
