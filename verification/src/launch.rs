use crate::error::LaunchpadError;
use crate::principal::{principal_text, same_principal, text_of};
use crate::store::{ProjectStore, StoreModel};
use candid::Principal;
use vstd::prelude::*;

verus! {

/// What the exchange answered to a request to create a token and its pool.
#[derive(Clone, Copy, Debug)]
pub enum PoolCreation {
    /// The exchange created the token `token_id` and the pool `pool_id`.
    Created { token_id: Principal, pool_id: u64 },
    /// The call failed, or the exchange reported a failure.
    Failed,
}

/// What a successful launch produced.
#[derive(Clone, Copy, Debug)]
pub struct LaunchReceipt {
    pub token_id: Principal,
    pub pool_id: u64,
}

/// The decimal digit `digit`, as text.
pub open spec fn digit_text(digit: nat) -> Seq<char>
    recommends
        digit < 10,
{
    if digit == 0 {
        "0"@
    } else if digit == 1 {
        "1"@
    } else if digit == 2 {
        "2"@
    } else if digit == 3 {
        "3"@
    } else if digit == 4 {
        "4"@
    } else if digit == 5 {
        "5"@
    } else if digit == 6 {
        "6"@
    } else if digit == 7 {
        "7"@
    } else if digit == 8 {
        "8"@
    } else {
        "9"@
    }
}

/// The number `n` written in decimal, without leading zeros.
pub open spec fn decimal_text(n: nat) -> Seq<char>
    decreases n,
{
    if n < 10 {
        digit_text(n)
    } else {
        decimal_text(n / 10) + digit_text(n % 10)
    }
}

/// The text that tells a caller of a successful launch.
pub open spec fn launch_message_text(receipt: LaunchReceipt) -> Seq<char> {
    "Project launched successfully! Token ID: "@ + principal_text(receipt.token_id)
        + ", Pool ID: "@ + decimal_text(receipt.pool_id as nat)
}

/// Writes `n` in decimal.
pub fn decimal(n: u64) -> (text: String)
    ensures
        text@ == decimal_text(n as nat),
    decreases n,
{
    let digit = n % 10;
    let last = if digit == 0 {
        "0"
    } else if digit == 1 {
        "1"
    } else if digit == 2 {
        "2"
    } else if digit == 3 {
        "3"
    } else if digit == 4 {
        "4"
    } else if digit == 5 {
        "5"
    } else if digit == 6 {
        "6"
    } else if digit == 7 {
        "7"
    } else if digit == 8 {
        "8"
    } else {
        "9"
    };
    if n < 10 {
        last.to_string()
    } else {
        let mut text = decimal(n / 10);
        text.append(last);
        text
    }
}

impl LaunchReceipt {
    /// The text that tells the caller of this launch: it names the token and the
    /// pool.
    pub fn message(&self) -> (text: String)
        ensures
            text@ == launch_message_text(*self),
    {
        let mut text = "Project launched successfully! Token ID: ".to_string();
        let token = text_of(&self.token_id);
        text.append(token.as_str());
        text.append(", Pool ID: ");
        let pool = decimal(self.pool_id);
        text.append(pool.as_str());
        text
    }
}

/// What is asked of the exchange to launch a project.
#[derive(Clone, Debug)]
pub struct PoolRequest {
    pub exchange: Principal,
    pub symbol: String,
    pub name: String,
    pub total_supply: u64,
    pub initial_liquidity: u64,
}

/// The mathematical value of a pool request.
pub ghost struct PoolRequestModel {
    pub exchange: Principal,
    pub symbol: Seq<char>,
    pub name: Seq<char>,
    pub total_supply: u64,
    pub initial_liquidity: u64,
}

impl View for PoolRequest {
    type V = PoolRequestModel;

    open spec fn view(&self) -> PoolRequestModel {
        PoolRequestModel {
            exchange: self.exchange,
            symbol: self.symbol@,
            name: self.name@,
            total_supply: self.total_supply,
            initial_liquidity: self.initial_liquidity,
        }
    }
}

/// A launch that has passed validation and waits for the exchange's answer. Only
/// `LaunchCoordinator::begin_launch` makes one, and it remembers the store that
/// the launch was validated on.
pub struct LaunchTicket {
    project_id: u64,
    caller: Principal,
    request: PoolRequest,
    validated_on: Ghost<StoreModel>,
}

/// The mathematical value of a launch ticket.
pub ghost struct TicketModel {
    pub project_id: u64,
    pub caller: Principal,
    pub request: PoolRequestModel,
    pub validated_on: StoreModel,
}

impl TicketModel {
    /// The launch was not refused on the store it was validated on: there the
    /// project existed, the caller was its creator, it was unlaunched and its
    /// funding had reached the target, and the exchange was configured.
    pub open spec fn was_validated(self) -> bool {
        launch_refusal(
            self.validated_on,
            Some(self.request.exchange),
            self.project_id,
            self.caller,
        ) is None
    }
}

impl View for LaunchTicket {
    type V = TicketModel;

    closed spec fn view(&self) -> TicketModel {
        TicketModel {
            project_id: self.project_id,
            caller: self.caller,
            request: self.request@,
            validated_on: self.validated_on@,
        }
    }
}

impl LaunchTicket {
    /// Every ticket stands for a validated launch.
    #[verifier::type_invariant]
    spec fn validated(self) -> bool {
        self@.was_validated()
    }

    /// The project to launch.
    pub fn project_id(&self) -> (id: u64)
        ensures
            id == self@.project_id,
    {
        self.project_id
    }

    /// Who asked for the launch.
    pub fn caller(&self) -> (caller: Principal)
        ensures
            caller == self@.caller,
    {
        self.caller
    }

    /// What to ask of the exchange.
    pub fn request(&self) -> (request: &PoolRequest)
        ensures
            request@ == self@.request,
    {
        &self.request
    }
}

/// Why a launch of `project_id` by `caller` is refused before the exchange is
/// called, or `None` where it may proceed. The conditions are tested in this
/// order, and the first that fails decides.
pub open spec fn launch_refusal(
    store: StoreModel,
    exchange: Option<Principal>,
    project_id: u64,
    caller: Principal,
) -> Option<LaunchpadError> {
    if !store.projects.contains_key(project_id) {
        Some(LaunchpadError::NotFound)
    } else if store.projects[project_id].creator != caller {
        Some(LaunchpadError::Unauthorized)
    } else if store.projects[project_id].is_launched {
        Some(LaunchpadError::AlreadyLaunched)
    } else if !store.projects[project_id].is_funded() {
        Some(LaunchpadError::FundingNotMet)
    } else if exchange is None {
        Some(LaunchpadError::ExternalServiceUnavailable)
    } else {
        None
    }
}

/// Why the outcome of a launch of `project_id` by `caller` is not written once
/// the exchange has created the pool, or `None` where it is. These are the checks
/// repeated at the moment of the write: the funding is not among them.
pub open spec fn commit_refusal(store: StoreModel, project_id: u64, caller: Principal) -> Option<
    LaunchpadError,
> {
    if !store.projects.contains_key(project_id) {
        Some(LaunchpadError::NotFound)
    } else if store.projects[project_id].creator != caller {
        Some(LaunchpadError::Unauthorized)
    } else if store.projects[project_id].is_launched {
        Some(LaunchpadError::AlreadyLaunched)
    } else {
        None
    }
}

/// What the caller of a launch is told once the exchange has answered `outcome`.
pub open spec fn commit_result(
    store: StoreModel,
    project_id: u64,
    caller: Principal,
    outcome: PoolCreation,
) -> Result<LaunchReceipt, LaunchpadError> {
    match outcome {
        PoolCreation::Failed => Err(LaunchpadError::ExternalServiceError),
        PoolCreation::Created { token_id, pool_id } => match commit_refusal(
            store,
            project_id,
            caller,
        ) {
            Some(error) => Err(error),
            None => Ok(LaunchReceipt { token_id, pool_id }),
        },
    }
}

/// The store once the exchange has answered `outcome` at time `now`: the project
/// is launched where the caller is told so, and nothing changes otherwise.
pub open spec fn after_commit(
    store: StoreModel,
    project_id: u64,
    caller: Principal,
    outcome: PoolCreation,
    now: u64,
) -> StoreModel {
    match commit_result(store, project_id, caller, outcome) {
        Ok(receipt) => store.with_record(
            project_id,
            store.projects[project_id].launched(receipt.token_id, receipt.pool_id, now),
        ),
        Err(_) => store,
    }
}

/// Coordinates the launch of projects on the exchange. It knows which exchange to
/// call, once it has been told.
pub struct LaunchCoordinator {
    exchange: Option<Principal>,
}

impl LaunchCoordinator {
    /// The exchange that has been configured, if any.
    pub closed spec fn exchange(&self) -> Option<Principal> {
        self.exchange
    }

    /// A coordinator that has not been told of an exchange yet.
    pub fn new() -> (coordinator: LaunchCoordinator)
        ensures
            coordinator.exchange() is None,
    {
        LaunchCoordinator { exchange: None }
    }

    /// Configures the exchange to call, in place of any configured before.
    pub fn init(&mut self, kong_canister_id: Principal)
        ensures
            final(self).exchange() == Some(kong_canister_id),
    {
        self.exchange = Some(kong_canister_id);
    }

    /// The exchange to call, or `ExternalServiceUnavailable` where none has been
    /// configured.
    pub fn service(&self) -> (service: Result<Principal, LaunchpadError>)
        ensures
            service == match self.exchange() {
                Some(exchange) => Ok::<Principal, LaunchpadError>(exchange),
                None => Err(LaunchpadError::ExternalServiceUnavailable),
            },
    {
        match self.exchange {
            Some(exchange) => Ok(exchange),
            None => Err(LaunchpadError::ExternalServiceUnavailable),
        }
    }

    /// The first phase of a launch: validates the launch of `project_id` by `caller`
    /// against the store as it is now, and says what to ask of the exchange. The
    /// store is only read.
    pub fn begin_launch(
        &self,
        store: &ProjectStore,
        project_id: u64,
        caller: Principal,
        initial_liquidity: u64,
    ) -> (begun: Result<LaunchTicket, LaunchpadError>)
        requires
            store.wf(),
        ensures
            match begun {
                Ok(ticket) => {
                    &&& launch_refusal(store@, self.exchange(), project_id, caller) is None
                    &&& ticket@ == TicketModel {
                        project_id,
                        caller,
                        request: PoolRequestModel {
                            exchange: self.exchange().unwrap(),
                            symbol: store@.projects[project_id].symbol,
                            name: store@.projects[project_id].name,
                            total_supply: store@.projects[project_id].total_supply,
                            initial_liquidity,
                        },
                        validated_on: store@,
                    }
                },
                Err(error) => launch_refusal(store@, self.exchange(), project_id, caller) == Some(
                    error,
                ),
            },
    {
        let project = match store.get(project_id) {
            Some(project) => project,
            None => {
                return Err(LaunchpadError::NotFound);
            },
        };
        if !same_principal(&project.creator, &caller) {
            return Err(LaunchpadError::Unauthorized);
        }
        if project.is_launched {
            return Err(LaunchpadError::AlreadyLaunched);
        }
        if project.current_funding < project.target_funding {
            return Err(LaunchpadError::FundingNotMet);
        }
        let exchange = match self.exchange {
            Some(exchange) => exchange,
            None => {
                return Err(LaunchpadError::ExternalServiceUnavailable);
            },
        };
        Ok(
            LaunchTicket {
                project_id,
                caller,
                request: PoolRequest {
                    exchange,
                    symbol: project.symbol,
                    name: project.name,
                    total_supply: project.total_supply,
                    initial_liquidity,
                },
                validated_on: Ghost(store@),
            },
        )
    }

    /// The second phase of a launch, run when the exchange has answered. Other
    /// operations may have run on the store since the ticket was made, so the
    /// project is read again and the decisive checks are repeated on it. Where the
    /// exchange created the pool and the project is still unlaunched, the token,
    /// the pool and the time `now` are written and the project becomes launched.
    /// In every other case the store stays as it is. Whatever the result, the
    /// ticket stands for a launch that passed validation when it began.
    pub fn complete_launch(
        &self,
        store: &mut ProjectStore,
        ticket: LaunchTicket,
        outcome: PoolCreation,
        now: u64,
    ) -> (completed: Result<LaunchReceipt, LaunchpadError>)
        requires
            old(store).wf(),
        ensures
            final(store).wf(),
            ticket@.was_validated(),
            completed == commit_result(
                old(store)@,
                ticket@.project_id,
                ticket@.caller,
                outcome,
            ),
            final(store)@ == after_commit(
                old(store)@,
                ticket@.project_id,
                ticket@.caller,
                outcome,
                now,
            ),
    {
        proof {
            use_type_invariant(&ticket);
        }
        let (token_id, pool_id) = match outcome {
            PoolCreation::Created { token_id, pool_id } => (token_id, pool_id),
            PoolCreation::Failed => {
                return Err(LaunchpadError::ExternalServiceError);
            },
        };
        let mut project = match store.get(ticket.project_id) {
            Some(project) => project,
            None => {
                return Err(LaunchpadError::NotFound);
            },
        };
        if !same_principal(&project.creator, &ticket.caller) {
            return Err(LaunchpadError::Unauthorized);
        }
        if project.is_launched {
            return Err(LaunchpadError::AlreadyLaunched);
        }
        project.token_canister_id = Some(token_id);
        project.kong_pool_id = Some(pool_id);
        project.is_launched = true;
        project.launch_timestamp = now;
        store.insert(ticket.project_id, project);
        Ok(LaunchReceipt { token_id, pool_id })
    }
}

} // verus!
