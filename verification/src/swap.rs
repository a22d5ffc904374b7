use crate::error::LaunchpadError;
use crate::launch::LaunchCoordinator;
use candid::Principal;
use vstd::prelude::*;

verus! {

/// How long a swap stays valid after it is ordered, in nanoseconds: one hour.
pub const SWAP_VALIDITY_NANOS: u64 = 3_600_000_000_000;

/// What is asked of the exchange to swap one token for another.
#[derive(Clone, Copy, Debug)]
pub struct SwapArgs {
    pub token_in: Principal,
    pub token_out: Principal,
    pub amount_in: u64,
    pub amount_out_min: u64,
    pub to: Principal,
    pub deadline: u64,
}

/// A swap to pass on, and the exchange to pass it to.
#[derive(Clone, Copy, Debug)]
pub struct SwapOrder {
    pub exchange: Principal,
    pub args: SwapArgs,
}

/// The swap that `caller` orders at time `now`: what is bought goes to the caller,
/// and the order expires one hour after `now`.
pub open spec fn swap_args_for(
    token_in: Principal,
    token_out: Principal,
    amount_in: u64,
    amount_out_min: u64,
    caller: Principal,
    now: u64,
) -> SwapArgs
    recommends
        now + SWAP_VALIDITY_NANOS <= u64::MAX,
{
    SwapArgs {
        token_in,
        token_out,
        amount_in,
        amount_out_min,
        to: caller,
        deadline: (now + SWAP_VALIDITY_NANOS) as u64,
    }
}

impl LaunchCoordinator {
    /// Prepares the swap that `caller` orders at time `now`, to be passed on to the
    /// exchange. Without a configured exchange there is nothing to pass it to.
    pub fn prepare_swap(
        &self,
        token_in: Principal,
        token_out: Principal,
        amount_in: u64,
        amount_out_min: u64,
        caller: Principal,
        now: u64,
    ) -> (prepared: Result<SwapOrder, LaunchpadError>)
        requires
            self.exchange() is Some ==> now + SWAP_VALIDITY_NANOS <= u64::MAX,
        ensures
            prepared == match self.exchange() {
                Some(exchange) => Ok::<SwapOrder, LaunchpadError>(
                    SwapOrder {
                        exchange,
                        args: swap_args_for(
                            token_in,
                            token_out,
                            amount_in,
                            amount_out_min,
                            caller,
                            now,
                        ),
                    },
                ),
                None => Err(LaunchpadError::ExternalServiceUnavailable),
            },
    {
        let exchange = match self.service() {
            Ok(exchange) => exchange,
            Err(error) => {
                return Err(error);
            },
        };
        let args = SwapArgs {
            token_in,
            token_out,
            amount_in,
            amount_out_min,
            to: caller,
            deadline: now + SWAP_VALIDITY_NANOS,
        };
        Ok(SwapOrder { exchange, args })
    }
}

} // verus!
