use cosmwasm_std::{Attribute, Response};
use counter::contract::{
    count, decrement, execute, increment, instantiate, query, reset, CounterError, Transition,
};
use counter::msg::{CountResp, ExecuteMsg, InstantiateMsg, QueryMsg};

fn value_of<'a>(attributes: &'a [Attribute], key: &str) -> &'a str {
    attributes.iter().find(|attr| attr.key == key).unwrap().value.as_str()
}

fn event_addr<'a>(resp: &'a Response, ty: &str) -> &'a str {
    let event = resp.events.iter().find(|ev| ev.ty == ty).unwrap();
    value_of(&event.attributes, "addr")
}

fn started_at_seven() -> Option<u32> {
    Some(instantiate(InstantiateMsg { starting_count: 7 }).count)
}

fn stored_after(t: &Transition) -> Option<u32> {
    Some(t.count)
}

#[test]
fn instantiation() {
    let stored = started_at_seven();
    let resp = query(stored, QueryMsg::Count {}).unwrap();
    assert_eq!(resp, CountResp { count: 7 });
}

#[test]
fn query_count() {
    let stored = started_at_seven();
    let resp = query(stored, QueryMsg::Count {}).unwrap();
    assert_eq!(7, resp.count);
}

#[test]
fn exec_increment() {
    let stored = started_at_seven();
    let t = execute(stored, "user", ExecuteMsg::Increment {}).unwrap();
    let wasm = &t.response.attributes;
    assert_eq!(event_addr(&t.response, "incremented"), "user");
    assert_eq!(value_of(wasm, "action"), "increment");
    assert_eq!(value_of(wasm, "old_count"), "7");
    assert_eq!(value_of(wasm, "new_count"), "8");
}

#[test]
fn exec_decrement() {
    let stored = started_at_seven();
    let t = execute(stored, "user", ExecuteMsg::Decrement {}).unwrap();
    let wasm = &t.response.attributes;
    assert_eq!(event_addr(&t.response, "decremented"), "user");
    assert_eq!(value_of(wasm, "action"), "decrement");
    assert_eq!(value_of(wasm, "old_count"), "7");
    assert_eq!(value_of(wasm, "new_count"), "6");
}

#[test]
fn exec_reset() {
    let stored = started_at_seven();
    let t = execute(stored, "user", ExecuteMsg::Reset {}).unwrap();
    let wasm = &t.response.attributes;
    assert_eq!(event_addr(&t.response, "reset"), "user");
    assert_eq!(value_of(wasm, "action"), "reset");
    assert_eq!(value_of(wasm, "old_count"), "7");
    assert_eq!(value_of(wasm, "new_count"), "0");
}

#[test]
fn exec_set() {
    let new_count = 888;
    let stored = started_at_seven();
    let t = execute(stored, "user", ExecuteMsg::SetCount { new_count }).unwrap();
    let wasm = &t.response.attributes;
    assert_eq!(event_addr(&t.response, "set"), "user");
    assert_eq!(value_of(wasm, "action"), "set");
    assert_eq!(value_of(wasm, "old_count"), "7");
    assert_eq!(value_of(wasm, "new_count"), new_count.to_string());
}

#[test]
fn instantiate_emits_nothing() {
    let t = instantiate(InstantiateMsg { starting_count: 42 });
    assert_eq!(t.count, 42);
    assert_eq!(t.response, Response::new());
}

#[test]
fn increment_scenario_then_query() {
    let stored = started_at_seven();
    let t = execute(stored, "user", ExecuteMsg::Increment {}).unwrap();
    assert_eq!(t.response.events.len(), 1);
    assert_eq!(t.response.events[0].ty, "incremented");
    assert_eq!(t.response.events[0].attributes.len(), 1);
    let keys: Vec<&str> = t.response.attributes.iter().map(|a| a.key.as_str()).collect();
    assert_eq!(keys, vec!["action", "old_count", "new_count"]);
    assert!(t.response.messages.is_empty());
    assert!(t.response.data.is_none());
    let after = query(stored_after(&t), QueryMsg::Count {}).unwrap();
    assert_eq!(after, CountResp { count: 8 });
}

#[test]
fn increment_large_values_in_decimal() {
    let t = increment(Some(u32::MAX - 1), "a").unwrap();
    assert_eq!(t.count, 4294967295);
    assert_eq!(value_of(&t.response.attributes, "old_count"), "4294967294");
    assert_eq!(value_of(&t.response.attributes, "new_count"), "4294967295");
    let t = increment(Some(9), "a").unwrap();
    assert_eq!(value_of(&t.response.attributes, "new_count"), "10");
    let t = increment(Some(0), "a").unwrap();
    assert_eq!(value_of(&t.response.attributes, "old_count"), "0");
    assert_eq!(value_of(&t.response.attributes, "new_count"), "1");
}

#[test]
fn decrement_after_increment_restores() {
    let up = increment(Some(1000), "u").unwrap();
    let down = decrement(stored_after(&up), "u").unwrap();
    assert_eq!(down.count, 1000);
    let down = decrement(Some(1), "u").unwrap();
    assert_eq!(down.count, 0);
    assert_eq!(value_of(&down.response.attributes, "new_count"), "0");
    let up = increment(stored_after(&down), "u").unwrap();
    assert_eq!(up.count, 1);
}

#[test]
fn reset_from_various_states() {
    for n in [0u32, 1, 7, 100000, u32::MAX] {
        let t = reset(Some(n), "x").unwrap();
        assert_eq!(t.count, 0);
        assert_eq!(value_of(&t.response.attributes, "old_count"), n.to_string());
        assert_eq!(value_of(&t.response.attributes, "new_count"), "0");
        assert_eq!(query(stored_after(&t), QueryMsg::Count {}).unwrap().count, 0);
    }
}

#[test]
fn set_above_below_and_equal() {
    for (n, m) in [(7u32, 888u32), (888, 7), (5, 5), (u32::MAX, 0), (0, u32::MAX)] {
        let t = counter::contract::set(Some(n), "x", m).unwrap();
        assert_eq!(t.count, m);
        assert_eq!(value_of(&t.response.attributes, "old_count"), n.to_string());
        assert_eq!(value_of(&t.response.attributes, "new_count"), m.to_string());
    }
}

#[test]
fn query_before_instantiate_is_not_found() {
    assert_eq!(count(None), Err(CounterError::NotFound));
    assert_eq!(query(None, QueryMsg::Count {}), Err(CounterError::NotFound));
}

#[test]
fn mutation_before_instantiate_is_not_found() {
    let msgs = [
        ExecuteMsg::Increment {},
        ExecuteMsg::Decrement {},
        ExecuteMsg::Reset {},
        ExecuteMsg::SetCount { new_count: 3 },
    ];
    for msg in msgs {
        assert_eq!(execute(None, "x", msg).unwrap_err(), CounterError::NotFound);
    }
}

#[test]
fn sender_is_recorded_verbatim() {
    let t = reset(Some(3), "cosmos1xyz").unwrap();
    assert_eq!(event_addr(&t.response, "reset"), "cosmos1xyz");
}
