use vstd::prelude::*;
use crate::contract::{count_result, executes, initial_count, CounterError, Transition};
use crate::decimal::decimal_digits;
use crate::msg::{CountResp, ExecuteMsg, InstantiateMsg};

verus! {

/// Initializing with any `n` below the maximum and then incrementing stores
/// `n + 1`, which a query reads back; the increment reports `old_count` as
/// `n` and `new_count` as `n + 1`, both in base 10.
pub proof fn increment_after_instantiate(
    n: u32,
    sender: Seq<char>,
    r: Result<Transition, CounterError>,
)
    requires
        n < u32::MAX,
        executes(
            Some(initial_count(InstantiateMsg { starting_count: n })),
            sender,
            ExecuteMsg::Increment {},
            r,
        ),
    ensures
        r matches Ok(t) && {
            &&& count_result(Some(t.count)) == Ok::<CountResp, CounterError>(
                CountResp { count: (n + 1) as u32 },
            )
            &&& t.response.attributes@[1].value@ == decimal_digits(n as nat)
            &&& t.response.attributes@[2].value@ == decimal_digits(n as nat + 1)
        },
{
}

/// Initializing with any `n > 0` and then decrementing stores `n - 1`,
/// which a query reads back.
pub proof fn decrement_after_instantiate(
    n: u32,
    sender: Seq<char>,
    r: Result<Transition, CounterError>,
)
    requires
        n > 0,
        executes(
            Some(initial_count(InstantiateMsg { starting_count: n })),
            sender,
            ExecuteMsg::Decrement {},
            r,
        ),
    ensures
        r matches Ok(t) && count_result(Some(t.count)) == Ok::<CountResp, CounterError>(
            CountResp { count: (n - 1) as u32 },
        ),
{
}

/// Decrement undoes increment: from any `n` below the maximum, incrementing
/// and then decrementing stores `n` again.
pub proof fn decrement_undoes_increment(
    n: u32,
    sender: Seq<char>,
    up: Result<Transition, CounterError>,
    down: Result<Transition, CounterError>,
)
    requires
        n < u32::MAX,
        executes(Some(n), sender, ExecuteMsg::Increment {}, up),
        up matches Ok(t) ==> executes(Some(t.count), sender, ExecuteMsg::Decrement {}, down),
    ensures
        down matches Ok(t) && t.count == n,
{
}

/// Increment undoes decrement: from any `n > 0`, decrementing and then
/// incrementing stores `n` again.
pub proof fn increment_undoes_decrement(
    n: u32,
    sender: Seq<char>,
    down: Result<Transition, CounterError>,
    up: Result<Transition, CounterError>,
)
    requires
        n > 0,
        executes(Some(n), sender, ExecuteMsg::Decrement {}, down),
        down matches Ok(t) ==> executes(Some(t.count), sender, ExecuteMsg::Increment {}, up),
    ensures
        up matches Ok(t) && t.count == n,
{
}

/// Reset from any stored `n` stores zero and reports `old_count` as `n` and
/// `new_count` as `"0"`.
pub proof fn reset_from_any(n: u32, sender: Seq<char>, r: Result<Transition, CounterError>)
    requires
        executes(Some(n), sender, ExecuteMsg::Reset {}, r),
    ensures
        r matches Ok(t) && {
            &&& t.count == 0
            &&& t.response.attributes@[1].value@ == decimal_digits(n as nat)
            &&& t.response.attributes@[2].value@ == seq!['0']
        },
{
}

/// Setting `m` from any stored `n` stores `m`, whether `m` is below, equal
/// to or above `n`.
pub proof fn set_from_any(n: u32, m: u32, sender: Seq<char>, r: Result<Transition, CounterError>)
    requires
        executes(Some(n), sender, ExecuteMsg::SetCount { new_count: m }, r),
    ensures
        r matches Ok(t) && t.count == m && count_result(Some(t.count)) == Ok::<
            CountResp,
            CounterError,
        >(CountResp { count: m }),
{
}

/// Before initialization every query and every mutation fails with
/// `NotFound`.
pub proof fn uninitialized_not_found(
    sender: Seq<char>,
    msg: ExecuteMsg,
    r: Result<Transition, CounterError>,
)
    requires
        executes(None, sender, msg, r),
    ensures
        count_result(None) == Err::<CountResp, CounterError>(CounterError::NotFound),
        r matches Err(e) && e == CounterError::NotFound,
{
}

} // verus!
