use vstd::prelude::*;

use crate::msg::{ComputeRichestResponse, HandleMsg, InitMsg, QueryMsg};
use crate::state::{
    millionaires, millionaires_read, next_richest, richest_of, LedgerView, Millionaire,
    Participant, Store, NET_WORTH_MAX,
};

verus! {

/// Why a request was turned down.
#[derive(Clone, Copy, Debug, PartialEq, Eq, Structural)]
pub enum ContractError {
    /// The net worth does not fit a record, or the address is empty.
    InvalidArgument,
    /// No participant was ever registered.
    NotFound,
    /// The response could not be encoded.
    SerializationError,
    /// The underlying store could not be reached.
    StorageUnavailable,
}

impl ContractError {
    /// A short machine-readable name of the error.
    pub fn kind(&self) -> (r: &'static str)
        ensures
            *self == ContractError::InvalidArgument ==> r@ == "invalid_argument"@,
            *self == ContractError::NotFound ==> r@ == "not_found"@,
            *self == ContractError::SerializationError ==> r@ == "serialization_error"@,
            *self == ContractError::StorageUnavailable ==> r@ == "storage_unavailable"@,
    {
        proof {
            reveal_strlit("invalid_argument");
            reveal_strlit("not_found");
            reveal_strlit("serialization_error");
            reveal_strlit("storage_unavailable");
        }
        match self {
            ContractError::InvalidArgument => "invalid_argument",
            ContractError::NotFound => "not_found",
            ContractError::SerializationError => "serialization_error",
            ContractError::StorageUnavailable => "storage_unavailable",
        }
    }
}

/// The value of the outcome of a registration.
pub open spec fn outcome_view(r: Result<Millionaire, ContractError>) -> Result<
    Participant,
    ContractError,
> {
    match r {
        Result::Ok(m) => Result::Ok(m@),
        Result::Err(e) => Result::Err(e),
    }
}

/// The value of the outcome of a richest-participant query.
pub open spec fn response_view(r: Result<ComputeRichestResponse, ContractError>) -> Result<
    Seq<char>,
    ContractError,
> {
    match r {
        Result::Ok(resp) => Result::Ok(resp.address@),
        Result::Err(e) => Result::Err(e),
    }
}

/// A registration is accepted when the address is not empty and the net
/// worth fits a record.
pub open spec fn valid_submission(address: Seq<char>, net_worth: int) -> bool {
    address.len() > 0 && 0 <= net_worth <= NET_WORTH_MAX
}

/// The ledger after registering `address` with `net_worth` on `l`, and the
/// response: the registration echoed back, or the reason it was rejected,
/// in which case the ledger is left as it was.
pub open spec fn add_outcome(l: LedgerView, address: Seq<char>, net_worth: int) -> (
    LedgerView,
    Result<Participant, ContractError>,
) {
    if valid_submission(address, net_worth) {
        let m = Participant { address, net_worth: net_worth as u64 };
        (
            LedgerView { richest: next_richest(l.richest, m), history: l.history.push(m) },
            Result::Ok(m),
        )
    } else {
        (l, Result::Err(ContractError::InvalidArgument))
    }
}

/// The answer to a richest-participant query on `l`.
pub open spec fn richest_outcome(l: LedgerView) -> Result<Seq<char>, ContractError> {
    match l.richest {
        Option::Some(r) => Result::Ok(r.address),
        Option::None => Result::Err(ContractError::NotFound),
    }
}

/// Sets up an empty ledger.
pub fn init(msg: InitMsg) -> (r: Store)
    ensures
        r.wf(),
        r@.richest.is_none(),
        r@.history.len() == 0,
{
    Store::new()
}

/// Dispatches a request that changes the ledger.
pub fn handle(storage: &mut Store, msg: HandleMsg) -> (r: Result<Millionaire, ContractError>)
    requires
        old(storage).wf(),
    ensures
        final(storage).wf(),
        match msg {
            HandleMsg::AddMillionaire { address, net_worth } => (final(storage)@, outcome_view(r))
                == add_outcome(old(storage)@, address@, net_worth as int),
        },
{
    match msg {
        HandleMsg::AddMillionaire { address, net_worth } => try_add_millionaire(
            storage,
            address,
            net_worth,
        ),
    }
}

/// Registers `address` with `net_worth`: the registration is logged, and it
/// takes the richest slot when that slot is empty or holds a strictly
/// smaller net worth. The registration is echoed back.
pub fn try_add_millionaire(storage: &mut Store, address: String, net_worth: u128) -> (r: Result<
    Millionaire,
    ContractError,
>)
    requires
        old(storage).wf(),
    ensures
        final(storage).wf(),
        (final(storage)@, outcome_view(r)) == add_outcome(old(storage)@, address@, net_worth as int),
{
    if address.as_str().is_empty() || net_worth > NET_WORTH_MAX as u128 {
        return Err(ContractError::InvalidArgument);
    }
    let millionaire = Millionaire { address, net_worth: net_worth as u64 };
    storage.record_participant(millionaire.duplicate());
    let replace = match millionaires_read(storage) {
        Option::None => true,
        Option::Some(current) => millionaire.net_worth > current.net_worth,
    };
    if replace {
        millionaires(storage, millionaire.duplicate());
    }
    proof {
        assert(storage@.history.drop_last() =~= old(storage)@.history);
    }
    Ok(millionaire)
}

/// Dispatches a request that reads the ledger.
pub fn query(storage: &Store, msg: QueryMsg) -> (r: Result<ComputeRichestResponse, ContractError>)
    ensures
        response_view(r) == richest_outcome(storage@),
{
    match msg {
        QueryMsg::ComputeRichest {  } => compute_richest(storage),
    }
}

/// The address in the richest slot; `NotFound` while nobody is registered.
pub fn compute_richest(storage: &Store) -> (r: Result<ComputeRichestResponse, ContractError>)
    ensures
        response_view(r) == richest_outcome(storage@),
{
    match millionaires_read(storage) {
        Option::Some(millionaire) => Ok(ComputeRichestResponse { address: millionaire.address }),
        Option::None => Err(ContractError::NotFound),
    }
}

} // verus!
