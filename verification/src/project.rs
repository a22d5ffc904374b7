use candid::Principal;
use vstd::prelude::*;

verus! {

/// A funding campaign for a prospective token launch.
#[derive(Clone, Debug)]
pub struct LaunchpadProject {
    pub id: u64,
    pub name: String,
    pub symbol: String,
    pub description: String,
    pub total_supply: u64,
    pub target_funding: u64,
    pub current_funding: u64,
    pub creator: Principal,
    pub token_canister_id: Option<Principal>,
    pub kong_pool_id: Option<u64>,
    pub is_launched: bool,
    pub launch_timestamp: u64,
}

/// The mathematical value of a project record.
pub ghost struct ProjectModel {
    pub id: u64,
    pub name: Seq<char>,
    pub symbol: Seq<char>,
    pub description: Seq<char>,
    pub total_supply: u64,
    pub target_funding: u64,
    pub current_funding: u64,
    pub creator: Principal,
    pub token_canister_id: Option<Principal>,
    pub kong_pool_id: Option<u64>,
    pub is_launched: bool,
    pub launch_timestamp: u64,
}

impl ProjectModel {
    /// The record of a project at the moment of its creation: nothing funded,
    /// nothing launched.
    pub open spec fn fresh(
        id: u64,
        name: Seq<char>,
        symbol: Seq<char>,
        description: Seq<char>,
        total_supply: u64,
        target_funding: u64,
        creator: Principal,
    ) -> ProjectModel {
        ProjectModel {
            id,
            name,
            symbol,
            description,
            total_supply,
            target_funding,
            current_funding: 0,
            creator,
            token_canister_id: None,
            kong_pool_id: None,
            is_launched: false,
            launch_timestamp: 0,
        }
    }

    /// This record after a successful launch at time `now` that produced the
    /// token `token_id` and the pool `pool_id`. Only the four launch fields change.
    pub open spec fn launched(self, token_id: Principal, pool_id: u64, now: u64) -> ProjectModel {
        ProjectModel {
            token_canister_id: Some(token_id),
            kong_pool_id: Some(pool_id),
            is_launched: true,
            launch_timestamp: now,
            ..self
        }
    }

    /// This record with its funding raised to `funding`.
    pub open spec fn with_funding(self, funding: u64) -> ProjectModel {
        ProjectModel { current_funding: funding, ..self }
    }

    /// The funding target has been reached.
    pub open spec fn is_funded(self) -> bool {
        self.current_funding >= self.target_funding
    }

    /// The launch outcome is recorded exactly when the project is launched: an
    /// unlaunched project has no token, no pool and no launch time, a launched one
    /// has both a token and a pool.
    pub open spec fn outcome_matches_status(self) -> bool {
        if self.is_launched {
            self.token_canister_id is Some && self.kong_pool_id is Some
        } else {
            self.token_canister_id is None && self.kong_pool_id is None && self.launch_timestamp
                == 0
        }
    }

    /// `later` is the same project as `self`: what is fixed at creation is equal in
    /// both.
    pub open spec fn same_identity(self, later: ProjectModel) -> bool {
        &&& later.id == self.id
        &&& later.name == self.name
        &&& later.symbol == self.symbol
        &&& later.description == self.description
        &&& later.total_supply == self.total_supply
        &&& later.target_funding == self.target_funding
        &&& later.creator == self.creator
    }
}

impl View for LaunchpadProject {
    type V = ProjectModel;

    open spec fn view(&self) -> ProjectModel {
        ProjectModel {
            id: self.id,
            name: self.name@,
            symbol: self.symbol@,
            description: self.description@,
            total_supply: self.total_supply,
            target_funding: self.target_funding,
            current_funding: self.current_funding,
            creator: self.creator,
            token_canister_id: self.token_canister_id,
            kong_pool_id: self.kong_pool_id,
            is_launched: self.is_launched,
            launch_timestamp: self.launch_timestamp,
        }
    }
}

/// The record that Candid's decoder reads from `bytes`, where it reads one.
pub uninterp spec fn decoded_record(bytes: Seq<u8>) -> Option<ProjectModel>;

/// Calls `candid::encode_args` on the record's twelve fields, in the order of
/// their declaration. Candid's encoding is self-describing, and decoding it at the
/// types it was written with gives the written values back: the bytes returned
/// here decode to this record.
#[verifier::external_body]
fn encode_fields(project: &LaunchpadProject) -> (bytes: Vec<u8>)
    ensures
        decoded_record(bytes@) == Some(project@),
{
    let p = project;
    let head = (p.id, &p.name, &p.symbol, &p.description, p.total_supply, p.target_funding);
    let (a, b, c, d, e, f) = head;
    let (g, h, i) = (p.current_funding, p.creator, p.token_canister_id);
    let (j, k, l) = (p.kong_pool_id, p.is_launched, p.launch_timestamp);
    candid::encode_args((a, b, c, d, e, f, g, h, i, j, k, l)).unwrap()
}

/// Calls `candid::decode_args` at the types of the record's twelve fields, in the
/// order of their declaration. The decoder reads nothing but `bytes`, so what it
/// returns is a function of them; an error of the decoder becomes `None`.
#[verifier::external_body]
fn decode_fields(bytes: &[u8]) -> (record: Option<LaunchpadProject>)
    ensures
        match record {
            Some(project) => decoded_record(bytes@) == Some(project@),
            None => decoded_record(bytes@) is None,
        },
{
    let (id, name, symbol, description, total_supply, target_funding, current_funding, creator,
        token_canister_id, kong_pool_id, is_launched, launch_timestamp) =
        candid::decode_args(bytes).ok()?;
    Some(LaunchpadProject { id, name, symbol, description, total_supply, target_funding,
        current_funding, creator, token_canister_id, kong_pool_id, is_launched,
        launch_timestamp })
}

impl LaunchpadProject {
    /// A newly created project.
    pub fn new(
        id: u64,
        name: String,
        symbol: String,
        description: String,
        total_supply: u64,
        target_funding: u64,
        creator: Principal,
    ) -> (project: LaunchpadProject)
        ensures
            project@ == ProjectModel::fresh(
                id,
                name@,
                symbol@,
                description@,
                total_supply,
                target_funding,
                creator,
            ),
    {
        LaunchpadProject {
            id,
            name,
            symbol,
            description,
            total_supply,
            target_funding,
            current_funding: 0,
            creator,
            token_canister_id: None,
            kong_pool_id: None,
            is_launched: false,
            launch_timestamp: 0,
        }
    }

    /// The bytes under which this record is stored. They decode to the record.
    pub fn to_bytes(&self) -> (bytes: Vec<u8>)
        ensures
            decoded_record(bytes@) == Some(self@),
    {
        encode_fields(self)
    }

    /// The record stored as `bytes`, or `None` where they hold no record.
    pub fn from_bytes(bytes: &[u8]) -> (record: Option<LaunchpadProject>)
        ensures
            match record {
                Some(project) => decoded_record(bytes@) == Some(project@),
                None => decoded_record(bytes@) is None,
            },
    {
        decode_fields(bytes)
    }
}

} // verus!
