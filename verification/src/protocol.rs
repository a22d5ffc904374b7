use crate::error::LaunchpadError;
use crate::launch::{after_commit, commit_result, launch_refusal, LaunchReceipt, PoolCreation};
use crate::project::ProjectModel;
use crate::store::StoreModel;
use candid::Principal;
use vstd::prelude::*;

verus! {

/// A launch that has passed validation and waits for the exchange's answer.
pub ghost struct PendingLaunch {
    pub project_id: u64,
    pub caller: Principal,
}

/// The state of the launchpad between two operations: the store, the exchange
/// that has been configured, and the launches that wait for the exchange.
pub ghost struct LaunchpadState {
    pub store: StoreModel,
    pub exchange: Option<Principal>,
    pub pending: Seq<PendingLaunch>,
}

/// One operation that runs to its end without being suspended. A launch is two of
/// them, with any number of others in between.
pub ghost enum Operation {
    /// The exchange is configured.
    Configure { exchange: Principal },
    /// A project is created.
    Create {
        name: Seq<char>,
        symbol: Seq<char>,
        description: Seq<char>,
        total_supply: u64,
        target_funding: u64,
        caller: Principal,
    },
    /// The funding of a project is raised to `funding`.
    Fund { project_id: u64, funding: u64 },
    /// A launch is validated and the exchange is called.
    BeginLaunch { project_id: u64, caller: Principal, initial_liquidity: u64 },
    /// The exchange answers the pending launch number `ticket`.
    CompleteLaunch { ticket: int, outcome: PoolCreation, now: u64 },
}

impl StoreModel {
    /// `later` is this store at a later time: no identifier has been handed out
    /// again, every project is still there and is the same project, its funding
    /// has not dropped, and a project that was launched is launched still, with
    /// the outcome it had.
    pub open spec fn precedes(self, later: StoreModel) -> bool {
        &&& self.next_id <= later.next_id
        &&& forall|id: u64| #[trigger]
            self.projects.contains_key(id) ==> {
                &&& later.projects.contains_key(id)
                &&& self.projects[id].same_identity(later.projects[id])
                &&& self.projects[id].current_funding <= later.projects[id].current_funding
                &&& self.projects[id].is_launched ==> later.projects[id] == ProjectModel {
                    current_funding: later.projects[id].current_funding,
                    ..self.projects[id]
                }
            }
        &&& forall|id: u64| #[trigger]
            later.projects.contains_key(id) && !self.projects.contains_key(id) ==> self.next_id
                <= id
    }
}

impl LaunchpadState {
    /// The launchpad before anything has happened.
    pub open spec fn initial() -> LaunchpadState {
        LaunchpadState { store: StoreModel::empty(), exchange: None, pending: Seq::empty() }
    }

    /// The pending launch `launch` was validated and its validation still holds of
    /// what cannot change: the project exists, the caller is its creator, and its
    /// funding has reached the target.
    pub open spec fn validated(self, launch: PendingLaunch) -> bool {
        &&& self.store.projects.contains_key(launch.project_id)
        &&& self.store.projects[launch.project_id].creator == launch.caller
        &&& self.store.projects[launch.project_id].is_funded()
    }

    /// The store is consistent and every pending launch was validated.
    pub open spec fn sound(self) -> bool {
        &&& self.store.consistent()
        &&& forall|i: int| 0 <= i < self.pending.len() ==> self.validated(#[trigger] self.pending[i])
    }

    /// The state after the operation `op`. An operation that is refused leaves the
    /// state as it is.
    pub open spec fn step(self, op: Operation) -> LaunchpadState {
        match op {
            Operation::Configure { exchange } => LaunchpadState {
                exchange: Some(exchange),
                ..self
            },
            Operation::Create {
                name,
                symbol,
                description,
                total_supply,
                target_funding,
                caller,
            } => if self.store.next_id < u64::MAX {
                LaunchpadState {
                    store: self.store.after_creation(
                        name,
                        symbol,
                        description,
                        total_supply,
                        target_funding,
                        caller,
                    ),
                    ..self
                }
            } else {
                self
            },
            Operation::Fund { project_id, funding } => if self.store.projects.contains_key(
                project_id,
            ) && self.store.projects[project_id].current_funding <= funding {
                LaunchpadState {
                    store: self.store.with_record(
                        project_id,
                        self.store.projects[project_id].with_funding(funding),
                    ),
                    ..self
                }
            } else {
                self
            },
            Operation::BeginLaunch { project_id, caller, initial_liquidity } => if launch_refusal(
                self.store,
                self.exchange,
                project_id,
                caller,
            ) is None {
                LaunchpadState {
                    pending: self.pending.push(PendingLaunch { project_id, caller }),
                    ..self
                }
            } else {
                self
            },
            Operation::CompleteLaunch { ticket, outcome, now } => if 0 <= ticket
                < self.pending.len() {
                LaunchpadState {
                    store: after_commit(
                        self.store,
                        self.pending[ticket].project_id,
                        self.pending[ticket].caller,
                        outcome,
                        now,
                    ),
                    pending: self.pending.remove(ticket),
                    ..self
                }
            } else {
                self
            },
        }
    }

    /// The state after the operations `ops`, one after the other.
    pub open spec fn run(self, ops: Seq<Operation>) -> LaunchpadState
        decreases ops.len(),
    {
        if ops.len() == 0 {
            self
        } else {
            self.run(ops.drop_last()).step(ops.last())
        }
    }
}

/// One operation keeps a sound state sound, and its store is the earlier store at
/// a later time.
pub proof fn lemma_step_keeps_order(state: LaunchpadState, op: Operation)
    requires
        state.sound(),
    ensures
        state.step(op).sound(),
        state.store.precedes(state.step(op).store),
{
    let next = state.step(op);
    match op {
        Operation::Configure { exchange } => {},
        Operation::Create { name, symbol, description, total_supply, target_funding, caller } => {
            if state.store.next_id < u64::MAX {
                assert(!state.store.projects.contains_key(state.store.next_id));
                assert forall|i: int| 0 <= i < next.pending.len() implies next.validated(
                    #[trigger] next.pending[i],
                ) by {
                    assert(state.validated(state.pending[i]));
                }
            }
        },
        Operation::Fund { project_id, funding } => {
            assert forall|i: int| 0 <= i < next.pending.len() implies next.validated(
                #[trigger] next.pending[i],
            ) by {
                assert(state.validated(state.pending[i]));
            }
        },
        Operation::BeginLaunch { project_id, caller, initial_liquidity } => {
            assert forall|i: int| 0 <= i < next.pending.len() implies next.validated(
                #[trigger] next.pending[i],
            ) by {
                if i < state.pending.len() {
                    assert(state.validated(state.pending[i]));
                }
            }
        },
        Operation::CompleteLaunch { ticket, outcome, now } => {
            if 0 <= ticket < state.pending.len() {
                assert forall|i: int| 0 <= i < next.pending.len() implies next.validated(
                    #[trigger] next.pending[i],
                ) by {
                    if i < ticket {
                        assert(next.pending[i] == state.pending[i]);
                        assert(state.validated(state.pending[i]));
                    } else {
                        assert(next.pending[i] == state.pending[i + 1]);
                        assert(state.validated(state.pending[i + 1]));
                    }
                }
            }
        },
    }
}

/// The order of stores in time is transitive.
pub proof fn lemma_precedes_is_transitive(first: StoreModel, second: StoreModel, third: StoreModel)
    requires
        first.precedes(second),
        second.precedes(third),
    ensures
        first.precedes(third),
{
    assert forall|id: u64| #[trigger]
        third.projects.contains_key(id) && !first.projects.contains_key(id) implies first.next_id
        <= id by {
        if second.projects.contains_key(id) {
        } else {
        }
    }
}

/// Whatever operations run on a sound launchpad, in whatever order, it stays
/// sound: every record is kept under its own identifier, which was handed out
/// before, every record's launch outcome matches its status, and every pending
/// launch is one by the creator of a project whose funding has reached its target.
pub proof fn law_soundness_is_kept(state: LaunchpadState, ops: Seq<Operation>)
    requires
        state.sound(),
    ensures
        state.run(ops).sound(),
        state.store.precedes(state.run(ops).store),
    decreases ops.len(),
{
    if ops.len() > 0 {
        law_soundness_is_kept(state, ops.drop_last());
        let before = state.run(ops.drop_last());
        lemma_step_keeps_order(before, ops.last());
        lemma_precedes_is_transitive(state.store, before.store, before.step(ops.last()).store);
    }
}

/// Every state that the launchpad can reach from its start is sound.
pub proof fn law_reachable_states_are_sound(ops: Seq<Operation>)
    ensures
        LaunchpadState::initial().run(ops).sound(),
{
    law_soundness_is_kept(LaunchpadState::initial(), ops);
}

/// An identifier is handed out once. The identifier given to a new project is in
/// use by no project, the project is stored under it, and whatever operations
/// follow, the project stays under that identifier and every identifier handed
/// out later is greater.
pub proof fn law_identifiers_are_never_reused(
    state: LaunchpadState,
    name: Seq<char>,
    symbol: Seq<char>,
    description: Seq<char>,
    total_supply: u64,
    target_funding: u64,
    caller: Principal,
    ops: Seq<Operation>,
)
    requires
        state.sound(),
        state.store.next_id < u64::MAX,
    ensures
        ({
            let id = state.store.next_id;
            let created = state.step(
                Operation::Create {
                    name,
                    symbol,
                    description,
                    total_supply,
                    target_funding,
                    caller,
                },
            );
            let later = created.run(ops);
            &&& !state.store.projects.contains_key(id)
            &&& created.store.projects.contains_key(id)
            &&& created.store.projects[id].id == id
            &&& later.store.projects.contains_key(id)
            &&& later.store.projects[id].id == id
            &&& id < later.store.next_id
            &&& forall|other: u64| #[trigger]
                later.store.projects.contains_key(other) ==> later.store.projects[other].id
                    == other
        }),
{
    let id = state.store.next_id;
    let op = Operation::Create { name, symbol, description, total_supply, target_funding, caller };
    let created = state.step(op);
    lemma_step_keeps_order(state, op);
    law_soundness_is_kept(created, ops);
    assert(created.store.projects.contains_key(id));
}

/// Being launched is permanent. Once a project is launched, whatever operations
/// follow, it is launched in every later state, with the token, the pool and the
/// launch time it was launched with.
pub proof fn law_launched_stays_launched(state: LaunchpadState, ops: Seq<Operation>, id: u64)
    requires
        state.sound(),
        state.store.projects.contains_key(id),
        state.store.projects[id].is_launched,
    ensures
        state.run(ops).store.projects.contains_key(id),
        state.run(ops).store.projects[id].is_launched,
        state.run(ops).store.projects[id].token_canister_id
            == state.store.projects[id].token_canister_id,
        state.run(ops).store.projects[id].kong_pool_id == state.store.projects[id].kong_pool_id,
        state.run(ops).store.projects[id].launch_timestamp
            == state.store.projects[id].launch_timestamp,
{
    law_soundness_is_kept(state, ops);
}

/// A launch succeeds only for a validated request. Where the answer to a pending
/// launch is written, the caller is the project's creator, the project was not
/// launched, and its funding has reached its target. Where the launch is refused
/// at this point, the store is left exactly as it was.
pub proof fn law_launch_succeeds_only_when_validated(
    state: LaunchpadState,
    ticket: int,
    outcome: PoolCreation,
    now: u64,
)
    requires
        state.sound(),
        0 <= ticket < state.pending.len(),
    ensures
        ({
            let launch = state.pending[ticket];
            let result = commit_result(state.store, launch.project_id, launch.caller, outcome);
            let next = state.step(Operation::CompleteLaunch { ticket, outcome, now });
            &&& result is Ok ==> {
                &&& state.store.projects.contains_key(launch.project_id)
                &&& state.store.projects[launch.project_id].creator == launch.caller
                &&& !state.store.projects[launch.project_id].is_launched
                &&& state.store.projects[launch.project_id].is_funded()
                &&& outcome is Created
                &&& next.store.projects[launch.project_id]
                    == state.store.projects[launch.project_id].launched(
                    outcome->token_id,
                    outcome->pool_id,
                    now,
                )
            }
            &&& result is Err ==> next.store == state.store
        }),
{
    assert(state.validated(state.pending[ticket]));
}

/// A launch that is refused before the exchange is called changes nothing: the
/// state after it is the state before it, for each of the reasons of refusal.
pub proof fn law_refused_launch_changes_nothing(
    state: LaunchpadState,
    project_id: u64,
    caller: Principal,
    initial_liquidity: u64,
)
    ensures
        ({
            let refusal = launch_refusal(state.store, state.exchange, project_id, caller);
            let next = state.step(Operation::BeginLaunch { project_id, caller, initial_liquidity });
            &&& refusal is Some ==> next == state
            &&& next.store == state.store
            &&& refusal is None <==> {
                &&& state.store.projects.contains_key(project_id)
                &&& state.store.projects[project_id].creator == caller
                &&& !state.store.projects[project_id].is_launched
                &&& state.store.projects[project_id].is_funded()
                &&& state.exchange is Some
            }
        }),
{
}

/// Of two launches of one project that are in flight together, one wins. When the
/// exchange has created a pool for each, the first answer to arrive is written
/// and its caller is told of success. Whatever operations run before the second
/// answer arrives, its caller is told that the project is launched already, and
/// nothing is written: the store stays as it was, with the first outcome.
pub proof fn law_one_of_two_launches_wins(
    state: LaunchpadState,
    first: int,
    second: PendingLaunch,
    first_outcome: PoolCreation,
    first_time: u64,
    between: Seq<Operation>,
    second_outcome: PoolCreation,
    second_time: u64,
)
    requires
        state.sound(),
        0 <= first < state.pending.len(),
        state.validated(second),
        second.project_id == state.pending[first].project_id,
        !state.store.projects[second.project_id].is_launched,
        first_outcome is Created,
        second_outcome is Created,
    ensures
        ({
            let id = second.project_id;
            let won = state.step(
                Operation::CompleteLaunch { ticket: first, outcome: first_outcome, now: first_time },
            );
            let later = won.run(between);
            &&& commit_result(state.store, id, state.pending[first].caller, first_outcome) is Ok
            &&& won.store.projects[id] == state.store.projects[id].launched(
                first_outcome->token_id,
                first_outcome->pool_id,
                first_time,
            )
            &&& commit_result(later.store, id, second.caller, second_outcome) == Err::<
                LaunchReceipt,
                LaunchpadError,
            >(LaunchpadError::AlreadyLaunched)
            &&& after_commit(later.store, id, second.caller, second_outcome, second_time)
                == later.store
            &&& later.store.projects[id].token_canister_id == Some(first_outcome->token_id)
            &&& later.store.projects[id].kong_pool_id == Some(first_outcome->pool_id)
            &&& later.store.projects[id].launch_timestamp == first_time
        }),
{
    let id = second.project_id;
    let op = Operation::CompleteLaunch { ticket: first, outcome: first_outcome, now: first_time };
    let won = state.step(op);
    assert(state.validated(state.pending[first]));
    lemma_step_keeps_order(state, op);
    law_soundness_is_kept(won, between);
    assert(won.store.projects.contains_key(id));
}

/// A launch whose call to the exchange fails leaves no trace and may be tried
/// again. The caller is told of the failure, the store is exactly as it was, so
/// the project is unlaunched with no token, no pool and no launch time, and the
/// same launch passes validation again.
pub proof fn law_failed_launch_can_be_retried(
    state: LaunchpadState,
    project_id: u64,
    caller: Principal,
    now: u64,
)
    requires
        state.store.consistent(),
        launch_refusal(state.store, state.exchange, project_id, caller) is None,
    ensures
        ({
            let failed = after_commit(state.store, project_id, caller, PoolCreation::Failed, now);
            &&& commit_result(state.store, project_id, caller, PoolCreation::Failed) == Err::<
                LaunchReceipt,
                LaunchpadError,
            >(LaunchpadError::ExternalServiceError)
            &&& failed == state.store
            &&& !failed.projects[project_id].is_launched
            &&& failed.projects[project_id].token_canister_id is None
            &&& failed.projects[project_id].kong_pool_id is None
            &&& failed.projects[project_id].launch_timestamp == 0
            &&& launch_refusal(failed, state.exchange, project_id, caller) is None
        }),
{
}

} // verus!
