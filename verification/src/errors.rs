//! The error taxonomy of the core.

use vstd::prelude::*;

verus! {

/// Why an operation of the core refused to act.
#[derive(Debug, Clone, Copy, PartialEq, Eq, Structural)]
pub enum ArbError {
    /// A leg capability lacks the credentials it needs.
    NotConfigured,
    /// No position carries the given id.
    NotFound,
    /// The position is not in the state the operation needs.
    InvalidState,
    /// The pre-trade risk check refused the execution attempt.
    RiskLimitExceeded,
}

impl ArbError {
    /// A short description of the error.
    pub fn message(&self) -> (r: String)
        ensures
            r@ == error_message(*self),
    {
        match self {
            ArbError::NotConfigured => "wallet not configured".to_owned(),
            ArbError::NotFound => "position not found".to_owned(),
            ArbError::InvalidState => "position is not open".to_owned(),
            ArbError::RiskLimitExceeded => "risk limit exceeded".to_owned(),
        }
    }
}

/// The description `message` returns for each error.
pub open spec fn error_message(e: ArbError) -> Seq<char> {
    match e {
        ArbError::NotConfigured => "wallet not configured"@,
        ArbError::NotFound => "position not found"@,
        ArbError::InvalidState => "position is not open"@,
        ArbError::RiskLimitExceeded => "risk limit exceeded"@,
    }
}

} // verus!
