use vstd::prelude::*;

use crate::contract::{add_outcome, richest_outcome, valid_submission, ContractError};
use crate::state::{registry, richest_of, LedgerView, Participant, NET_WORTH_MAX};

verus! {

/// After any sequence of registrations the richest record is one of them,
/// and no registration has a larger net worth: its net worth is the maximum
/// of all those submitted. Nothing is richest while nobody registered.
pub proof fn law_richest_is_maximum(s: Seq<Participant>)
    ensures
        s.len() == 0 <==> richest_of(s).is_none(),
        richest_of(s) matches Option::Some(r) ==> {
            &&& forall|i: int| 0 <= i < s.len() ==> #[trigger] s[i].net_worth <= r.net_worth
            &&& exists|i: int| 0 <= i < s.len() && s[i] == r
        },
    decreases s.len(),
{
    if s.len() > 0 {
        let p = s.drop_last();
        law_richest_is_maximum(p);
        let r = richest_of(s).unwrap();
        assert forall|i: int| 0 <= i < s.len() implies #[trigger] s[i].net_worth <= r.net_worth by {
            if i < p.len() {
                assert(s[i] == p[i]);
            }
        }
        if r == s.last() {
            assert(s[s.len() - 1] == r);
        } else {
            let k = choose|k: int| 0 <= k < p.len() && p[k] == r;
            assert(s[k] == r);
        }
    }
}

/// The richest record is the earliest registration among those with the
/// largest net worth.
pub proof fn law_earliest_maximum_wins(s: Seq<Participant>, i: int)
    requires
        0 <= i < s.len(),
        forall|j: int| 0 <= j < s.len() ==> #[trigger] s[j].net_worth <= s[i].net_worth,
        forall|j: int| 0 <= j < i ==> #[trigger] s[j].net_worth < s[i].net_worth,
    ensures
        richest_of(s) == Option::Some(s[i]),
    decreases s.len(),
{
    let p = s.drop_last();
    if i == s.len() - 1 {
        law_richest_is_maximum(p);
        if let Option::Some(r) = richest_of(p) {
            let k = choose|k: int| 0 <= k < p.len() && p[k] == r;
            assert(s[k] == p[k]);
        }
    } else {
        assert forall|j: int| 0 <= j < p.len() implies #[trigger] p[j].net_worth
            <= p[i].net_worth by {
            assert(s[j] == p[j]);
        }
        assert forall|j: int| 0 <= j < i implies #[trigger] p[j].net_worth < p[i].net_worth by {
            assert(s[j] == p[j]);
        }
        law_earliest_maximum_wins(p, i);
        assert(s.last() == s[s.len() - 1]);
    }
}

/// Of two registrations with equal net worth, the first stays richest,
/// whatever registrations of no larger net worth follow them.
pub proof fn law_tie_keeps_first(a: Participant, b: Participant, rest: Seq<Participant>)
    requires
        a.net_worth == b.net_worth,
        forall|k: int| 0 <= k < rest.len() ==> #[trigger] rest[k].net_worth <= a.net_worth,
    ensures
        richest_of(seq![a, b] + rest) == Option::Some(a),
{
    let s = seq![a, b] + rest;
    assert forall|j: int| 0 <= j < s.len() implies #[trigger] s[j].net_worth <= s[0].net_worth by {
        if j >= 2 {
            assert(s[j] == rest[j - 2]);
        }
    }
    law_earliest_maximum_wins(s, 0);
}

/// A registration keeps the richest slot in step with the registrations
/// committed so far: after it, the richest record is the largest of them.
pub proof fn law_add_keeps_maximum(l: LedgerView, address: Seq<char>, net_worth: int)
    requires
        l.richest == richest_of(l.history),
    ensures
        ({
            let n = add_outcome(l, address, net_worth).0;
            &&& n.richest == richest_of(n.history)
            &&& n.richest matches Option::Some(r) ==> {
                &&& forall|i: int|
                    0 <= i < n.history.len() ==> #[trigger] n.history[i].net_worth <= r.net_worth
                &&& exists|i: int| 0 <= i < n.history.len() && n.history[i] == r
            }
        }),
{
    let n = add_outcome(l, address, net_worth).0;
    if valid_submission(address, net_worth) {
        assert(n.history.drop_last() =~= l.history);
    }
    law_richest_is_maximum(n.history);
}

/// An accepted registration is what the log now holds for its address,
/// whatever the address held before; the other addresses keep theirs.
pub proof fn law_latest_registration_wins(l: LedgerView, address: Seq<char>, net_worth: int)
    requires
        valid_submission(address, net_worth),
    ensures
        registry(add_outcome(l, address, net_worth).0.history) == registry(l.history).insert(
            address,
            net_worth as u64,
        ),
{
    let n = add_outcome(l, address, net_worth).0;
    assert(n.history.drop_last() =~= l.history);
}

/// A query on a ledger where nobody registered fails with `NotFound`.
pub proof fn law_empty_query_fails(l: LedgerView)
    requires
        l.history.len() == 0,
        l.richest == richest_of(l.history),
    ensures
        richest_outcome(l) == Result::<Seq<char>, ContractError>::Err(ContractError::NotFound),
{
}

/// A net worth above the bound is rejected with `InvalidArgument` and leaves
/// the ledger, and so the answer to a later query, as it was.
pub proof fn law_out_of_bound_rejected(l: LedgerView, address: Seq<char>, net_worth: int)
    requires
        net_worth > NET_WORTH_MAX,
    ensures
        add_outcome(l, address, net_worth).0 == l,
        add_outcome(l, address, net_worth).1 == Result::<Participant, ContractError>::Err(
            ContractError::InvalidArgument,
        ),
        richest_outcome(add_outcome(l, address, net_worth).0) == richest_outcome(l),
{
}

/// An accepted registration is echoed back exactly as it was submitted.
pub proof fn law_echo(l: LedgerView, address: Seq<char>, net_worth: int)
    ensures
        add_outcome(l, address, net_worth).1 matches Result::Ok(m) ==> m.address == address
            && m.net_worth == net_worth,
        valid_submission(address, net_worth) ==> add_outcome(l, address, net_worth).1.is_ok(),
{
}

} // verus!
