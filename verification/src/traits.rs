//! The capabilities that a contract is given, and the aggregate that holds them.
use vstd::prelude::*;
use crate::addresses::{CanonicalAddr, HumanAddr};
use crate::errors::{outcome_view, FfiErrorView, FfiResult};

verus! {

/// Conversion of addresses between the display form and the canonical form.
///
/// Both operations are functions of their input and of the instance's fixed
/// configuration: what they return is named by [`Api::canonicalized`] and
/// [`Api::humanized`]. Each charges a fixed amount of gas for the attempt,
/// whether it succeeds or fails.
pub trait Api {
    /// The width in bytes of every canonical address of this instance.
    spec fn canonical_length(&self) -> nat;

    /// The gas that one call of [`Api::canonical_address`] costs.
    spec fn canonicalize_cost(&self) -> nat;

    /// The gas that one call of [`Api::human_address`] costs.
    spec fn humanize_cost(&self) -> nat;

    /// The outcome of canonicalizing the address text `human`.
    spec fn canonicalized(&self, human: Seq<char>) -> Result<Seq<u8>, FfiErrorView>;

    /// The outcome of humanizing the address bytes `canonical`.
    spec fn humanized(&self, canonical: Seq<u8>) -> Result<Seq<char>, FfiErrorView>;

    /// No call is free: both operations cost gas.
    proof fn lemma_gas_is_charged(&self)
        ensures
            self.canonicalize_cost() > 0,
            self.humanize_cost() > 0,
    ;

    /// Every canonical address that is handed out has the configured width.
    proof fn lemma_canonical_width(&self, human: Seq<char>)
        ensures
            self.canonicalized(human) matches Ok(canonical) ==> canonical.len()
                == self.canonical_length(),
    ;

    /// Bytes of any other width than the configured one are rejected,
    /// whatever they hold.
    proof fn lemma_width_is_checked(&self, canonical: Seq<u8>)
        ensures
            canonical.len() != self.canonical_length() ==> self.humanized(canonical) is Err,
    ;

    /// Converts a display address into its canonical form.
    fn canonical_address(&self, human: &HumanAddr) -> (out: FfiResult<CanonicalAddr>)
        ensures
            outcome_view(out.0) == self.canonicalized(human@),
            out.0 matches Ok(canonical) ==> canonical@.len() == self.canonical_length(),
            out.1.cost == self.canonicalize_cost(),
            out.1.cost > 0,
    ;

    /// Converts a canonical address back into its display form.
    fn human_address(&self, canonical: &CanonicalAddr) -> (out: FfiResult<HumanAddr>)
        ensures
            outcome_view(out.0) == self.humanized(canonical@),
            canonical@.len() != self.canonical_length() ==> out.0 is Err,
            out.1.cost == self.humanize_cost(),
            out.1.cost > 0,
    ;
}

/// Everything that one contract invocation depends on: its storage, the
/// address conversion and the means to query the chain.
pub struct Extern<S, A: Api, Q> {
    pub storage: S,
    pub api: A,
    pub querier: Q,
}

} // verus!
