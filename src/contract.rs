use vstd::prelude::*;
use cosmwasm_std::Response;
use crate::decimal::{decimal_digits, decimal_string};
use crate::msg::{CountResp, ExecuteMsg, InstantiateMsg, QueryMsg};
use crate::response::{
    add_event_attribute, add_response_attribute, add_response_event, is_attribute, new_event,
    new_response,
};

verus! {

/// Why an operation on the counter failed.
#[derive(Clone, Copy, Debug, PartialEq, Eq, Structural)]
pub enum CounterError {
    /// The counter was read before it was initialized.
    NotFound,
}

/// The outcome of a successful operation: the value to persist and the
/// response to hand back to the host.
#[derive(Debug)]
pub struct Transition {
    pub count: u32,
    pub response: Response,
}

/// A response with no messages, attributes, events or data.
pub open spec fn is_empty_response(r: Response) -> bool {
    &&& r.messages@.len() == 0
    &&& r.attributes@.len() == 0
    &&& r.events@.len() == 0
    &&& r.data is None
}

/// The value that initialization with `msg` persists.
pub open spec fn initial_count(msg: InstantiateMsg) -> u32 {
    msg.starting_count
}

/// What a count query answers when storage holds `stored`.
pub open spec fn count_result(stored: Option<u32>) -> Result<CountResp, CounterError> {
    match stored {
        Some(c) => Ok(CountResp { count: c }),
        None => Err(CounterError::NotFound),
    }
}

/// The value that `msg` computes from `old`, before any bound is applied.
pub open spec fn next_count(old: u32, msg: ExecuteMsg) -> int {
    match msg {
        ExecuteMsg::Increment {} => old + 1,
        ExecuteMsg::Decrement {} => old - 1,
        ExecuteMsg::Reset {} => 0,
        ExecuteMsg::SetCount { new_count } => new_count as int,
    }
}

/// `msg` applied to `old` stays within `u32`: no increment at the maximum,
/// no decrement at zero.
pub open spec fn fits(old: u32, msg: ExecuteMsg) -> bool {
    0 <= next_count(old, msg) <= u32::MAX
}

/// The type of the event that `msg` emits.
pub open spec fn event_name(msg: ExecuteMsg) -> Seq<char> {
    match msg {
        ExecuteMsg::Increment {} => "incremented"@,
        ExecuteMsg::Decrement {} => "decremented"@,
        ExecuteMsg::Reset {} => "reset"@,
        ExecuteMsg::SetCount { .. } => "set"@,
    }
}

/// The `action` attribute that `msg` reports.
pub open spec fn action_name(msg: ExecuteMsg) -> Seq<char> {
    match msg {
        ExecuteMsg::Increment {} => "increment"@,
        ExecuteMsg::Decrement {} => "decrement"@,
        ExecuteMsg::Reset {} => "reset"@,
        ExecuteMsg::SetCount { .. } => "set"@,
    }
}

/// `r` is the response of a mutation: one event of type `event` whose one
/// attribute `addr` names `sender`, and the attributes `action`, `old_count`
/// and `new_count`, the counts in base 10.
pub open spec fn reports(
    r: Response,
    event: Seq<char>,
    sender: Seq<char>,
    action: Seq<char>,
    old_count: u32,
    new_count: u32,
) -> bool {
    &&& r.messages@.len() == 0
    &&& r.data is None
    &&& r.events@.len() == 1
    &&& r.events@[0].ty@ == event
    &&& r.events@[0].attributes@.len() == 1
    &&& is_attribute(r.events@[0].attributes@[0], "addr"@, sender)
    &&& r.attributes@.len() == 3
    &&& is_attribute(r.attributes@[0], "action"@, action)
    &&& is_attribute(r.attributes@[1], "old_count"@, decimal_digits(old_count as nat))
    &&& is_attribute(r.attributes@[2], "new_count"@, decimal_digits(new_count as nat))
}

/// `r` is what `msg`, sent by `sender`, returns when storage holds `stored`:
/// `NotFound` before initialization, else the next count and its report.
pub open spec fn executes(
    stored: Option<u32>,
    sender: Seq<char>,
    msg: ExecuteMsg,
    r: Result<Transition, CounterError>,
) -> bool {
    match stored {
        None => r == Err::<Transition, CounterError>(CounterError::NotFound),
        Some(old) => match r {
            Ok(t) => t.count == next_count(old, msg) && reports(
                t.response,
                event_name(msg),
                sender,
                action_name(msg),
                old,
                t.count,
            ),
            Err(_) => false,
        },
    }
}

/// Creates the counter: persists `msg.starting_count` and emits nothing.
pub fn instantiate(msg: InstantiateMsg) -> (t: Transition)
    ensures
        t.count == initial_count(msg),
        is_empty_response(t.response),
{
    let starting_count = msg.starting_count;
    Transition { count: starting_count, response: new_response() }
}

/// Answers `msg` from the stored value.
pub fn query(stored: Option<u32>, msg: QueryMsg) -> (r: Result<CountResp, CounterError>)
    ensures
        r == count_result(stored),
{
    match msg {
        QueryMsg::Count {} => count(stored),
    }
}

/// The stored count, or `NotFound` before initialization.
pub fn count(stored: Option<u32>) -> (r: Result<CountResp, CounterError>)
    ensures
        r == count_result(stored),
        stored is None <==> r == Err::<CountResp, CounterError>(CounterError::NotFound),
{
    match stored {
        Some(count) => Ok(CountResp { count }),
        None => Err(CounterError::NotFound),
    }
}

/// Applies `msg`, sent by `sender`, to the stored value.
pub fn execute(stored: Option<u32>, sender: &str, msg: ExecuteMsg) -> (r: Result<
    Transition,
    CounterError,
>)
    requires
        stored matches Some(old) ==> fits(old, msg),
    ensures
        executes(stored, sender@, msg, r),
{
    match msg {
        ExecuteMsg::Increment {} => increment(stored, sender),
        ExecuteMsg::Decrement {} => decrement(stored, sender),
        ExecuteMsg::Reset {} => reset(stored, sender),
        ExecuteMsg::SetCount { new_count } => set(stored, sender, new_count),
    }
}

/// The response of a mutation: the event `event` carrying `addr = sender`,
/// then the attributes `action`, `old_count` and `new_count`.
fn report(event: &str, sender: &str, action: &str, old_count: u32, new_count: u32) -> (r:
    Response)
    ensures
        reports(r, event@, sender@, action@, old_count, new_count),
{
    proof {
        reveal_strlit("action");
        reveal_strlit("old_count");
        reveal_strlit("new_count");
    }
    let ev = add_event_attribute(new_event(event), "addr", sender);
    let old_text = decimal_string(old_count);
    let new_text = decimal_string(new_count);
    let resp = add_response_event(new_response(), ev);
    let resp = add_response_attribute(resp, "action", action);
    let resp = add_response_attribute(resp, "old_count", old_text.as_str());
    let resp = add_response_attribute(resp, "new_count", new_text.as_str());
    resp
}

/// Adds one to the stored count.
pub fn increment(stored: Option<u32>, sender: &str) -> (r: Result<Transition, CounterError>)
    requires
        stored matches Some(old) ==> old < u32::MAX,
    ensures
        executes(stored, sender@, ExecuteMsg::Increment {}, r),
{
    let old_count = match stored {
        Some(c) => c,
        None => return Err(CounterError::NotFound),
    };
    let new_count = old_count + 1;
    let response = report("incremented", sender, "increment", old_count, new_count);
    Ok(Transition { count: new_count, response })
}

/// Subtracts one from the stored count.
pub fn decrement(stored: Option<u32>, sender: &str) -> (r: Result<Transition, CounterError>)
    requires
        stored matches Some(old) ==> old > 0,
    ensures
        executes(stored, sender@, ExecuteMsg::Decrement {}, r),
{
    let old_count = match stored {
        Some(c) => c,
        None => return Err(CounterError::NotFound),
    };
    let new_count = old_count - 1;
    let response = report("decremented", sender, "decrement", old_count, new_count);
    Ok(Transition { count: new_count, response })
}

/// Sets the stored count back to zero.
pub fn reset(stored: Option<u32>, sender: &str) -> (r: Result<Transition, CounterError>)
    ensures
        executes(stored, sender@, ExecuteMsg::Reset {}, r),
{
    let old_count = match stored {
        Some(c) => c,
        None => return Err(CounterError::NotFound),
    };
    let new_count: u32 = 0;
    let response = report("reset", sender, "reset", old_count, new_count);
    Ok(Transition { count: new_count, response })
}

/// Replaces the stored count by `new_count`, whatever it held.
pub fn set(stored: Option<u32>, sender: &str, new_count: u32) -> (r: Result<
    Transition,
    CounterError,
>)
    ensures
        executes(stored, sender@, ExecuteMsg::SetCount { new_count }, r),
{
    let old_count = match stored {
        Some(c) => c,
        None => return Err(CounterError::NotFound),
    };
    let response = report("set", sender, "set", old_count, new_count);
    Ok(Transition { count: new_count, response })
}

} // verus!
