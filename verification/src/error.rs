use vstd::prelude::*;

verus! {

/// Why an operation of the launchpad was refused or failed.
#[derive(Clone, Copy, Debug, PartialEq, Eq, Structural)]
pub enum LaunchpadError {
    /// No project has the given identifier.
    NotFound,
    /// The caller is not the project's creator.
    Unauthorized,
    /// The project has been launched already.
    AlreadyLaunched,
    /// The project's funding is below its target.
    FundingNotMet,
    /// No exchange has been configured to call.
    ExternalServiceUnavailable,
    /// The exchange was called and reported a failure.
    ExternalServiceError,
    /// The exchange could not deliver the minimum amount asked for.
    SlippageExceeded,
}

impl LaunchpadError {
    /// The text reported to a caller for this error.
    pub open spec fn message_text(self) -> Seq<char> {
        match self {
            LaunchpadError::NotFound => "Project not found"@,
            LaunchpadError::Unauthorized => "Only project creator can launch"@,
            LaunchpadError::AlreadyLaunched => "Project already launched"@,
            LaunchpadError::FundingNotMet => "Funding target not met"@,
            LaunchpadError::ExternalServiceUnavailable => "KongSwap service not initialized"@,
            LaunchpadError::ExternalServiceError => "KongSwap call failed"@,
            LaunchpadError::SlippageExceeded => "Slippage limit exceeded"@,
        }
    }

    /// The text reported to a caller for this error.
    pub fn message(&self) -> (text: String)
        ensures
            text@ == self.message_text(),
    {
        match self {
            LaunchpadError::NotFound => "Project not found".to_string(),
            LaunchpadError::Unauthorized => "Only project creator can launch".to_string(),
            LaunchpadError::AlreadyLaunched => "Project already launched".to_string(),
            LaunchpadError::FundingNotMet => "Funding target not met".to_string(),
            LaunchpadError::ExternalServiceUnavailable => {
                "KongSwap service not initialized".to_string()
            },
            LaunchpadError::ExternalServiceError => "KongSwap call failed".to_string(),
            LaunchpadError::SlippageExceeded => "Slippage limit exceeded".to_string(),
        }
    }
}

} // verus!
