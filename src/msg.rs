use vstd::prelude::*;

verus! {

/// The message that sets up a ledger; it carries nothing.
pub struct InitMsg {}

/// The requests that change a ledger.
pub enum HandleMsg {
    /// Registers `address` with `net_worth`, or updates its registration.
    AddMillionaire { address: String, net_worth: u128 },
}

/// The requests that read a ledger.
pub enum QueryMsg {
    /// Asks for the address of the richest participant.
    ComputeRichest {},
}

/// The answer to `QueryMsg::ComputeRichest`.
pub struct ComputeRichestResponse {
    pub address: String,
}

} // verus!
