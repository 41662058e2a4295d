use millionaires::contract::{handle, init, query, ContractError};
use millionaires::msg::{ComputeRichestResponse, HandleMsg, InitMsg, QueryMsg};

// fred: enigma1rm7ljr05l38k72ftszer9ull9jwx9vd5re8ey4 100scrt
// thief: enigma1xgpjnwg7xtr3s6h7tk3vlknuzqpcpj2749nayf 1000scrt

#[test]
fn integration_proper_initialization() {
    let msg = InitMsg {};
    let store = init(msg);
    assert_eq!(0, store.participant_count());
}

#[test]
fn integration_add_millionaires() {
    let mut deps = init(InitMsg {});

    let fred = "enigma1rm7ljr05l38k72ftszer9ull9jwx9vd5re8ey4";
    let msg = HandleMsg::AddMillionaire { address: fred.to_string(), net_worth: 100000000 };
    let res = handle(&mut deps, msg).unwrap();
    assert_eq!(fred, res.address);
    assert_eq!(100000000, res.net_worth);
    assert_eq!(1, deps.participant_count());
}

#[test]
fn integration_compute_richest() {
    let mut deps = init(InitMsg {});

    let fred = "enigma1rm7ljr05l38k72ftszer9ull9jwx9vd5re8ey4";
    let msg = HandleMsg::AddMillionaire { address: fred.to_string(), net_worth: 100000000 };
    handle(&mut deps, msg).unwrap();

    let thief = "enigma1xgpjnwg7xtr3s6h7tk3vlknuzqpcpj2749nayf";
    let msg = HandleMsg::AddMillionaire { address: thief.to_string(), net_worth: 1000000000 };
    handle(&mut deps, msg).unwrap();

    // should return richest millionaire - thief
    let value: ComputeRichestResponse = query(&deps, QueryMsg::ComputeRichest {}).unwrap();
    assert_eq!(thief, value.address);
    assert!(matches!(query(&init(InitMsg {}), QueryMsg::ComputeRichest {}), Err(ContractError::NotFound)));
}
