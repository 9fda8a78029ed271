//! Gas accounting and the failure kinds of a host operation.
use vstd::prelude::*;

verus! {

/// The cost that one host operation incurred.
#[derive(Copy, Clone, Debug, PartialEq, Eq, Structural)]
pub struct GasInfo {
    /// Gas charged for the call, whether it succeeded or not.
    pub cost: u64,
}

impl GasInfo {
    /// A record of exactly `amount` gas.
    pub fn with_cost(amount: u64) -> (gas: Self)
        ensures
            gas.cost == amount,
    {
        GasInfo { cost: amount }
    }
}

/// Why a host operation failed.
#[derive(Clone, Debug, PartialEq, Eq)]
pub enum FfiError {
    /// The caller's input was invalid; a different request may succeed.
    UserErr { msg: String },
    /// The backend failed for a reason that the caller's input does not explain.
    Unknown { msg: String },
}

/// The mathematical content of an [`FfiError`]: its kind and its message text.
pub ghost enum FfiErrorView {
    UserErr { msg: Seq<char> },
    Unknown { msg: Seq<char> },
}

impl View for FfiError {
    type V = FfiErrorView;

    open spec fn view(&self) -> FfiErrorView {
        match self {
            FfiError::UserErr { msg } => FfiErrorView::UserErr { msg: msg@ },
            FfiError::Unknown { msg } => FfiErrorView::Unknown { msg: msg@ },
        }
    }
}

impl FfiError {
    /// An error that the caller can correct, carrying `msg`.
    pub fn user_err(msg: &str) -> (err: Self)
        ensures
            err@ == (FfiErrorView::UserErr { msg: msg@ }),
    {
        FfiError::UserErr { msg: msg.to_owned() }
    }

    /// A backend failure, carrying `msg`.
    pub fn unknown(msg: &str) -> (err: Self)
        ensures
            err@ == (FfiErrorView::Unknown { msg: msg@ }),
    {
        FfiError::Unknown { msg: msg.to_owned() }
    }
}

/// What every metered host operation returns: the outcome and the gas spent on it.
pub type FfiResult<T> = (Result<T, FfiError>, GasInfo);

/// The model of an operation's outcome: the view of the value or of the error.
pub open spec fn outcome_view<T: View>(outcome: Result<T, FfiError>) -> Result<T::V, FfiErrorView> {
    match outcome {
        Ok(value) => Ok(value@),
        Err(err) => Err(err@),
    }
}

} // verus!
