use vstd::prelude::*;

verus! {

/// Message consumed once, when the counter is created.
#[derive(Clone, Copy, Debug, PartialEq, Eq, Structural)]
pub struct InstantiateMsg {
    pub starting_count: u32,
}

/// The four mutations of the counter.
#[derive(Clone, Copy, Debug, PartialEq, Eq, Structural)]
pub enum ExecuteMsg {
    Increment {},
    Decrement {},
    Reset {},
    SetCount { new_count: u32 },
}

/// The read-only queries of the counter.
#[derive(Clone, Copy, Debug, PartialEq, Eq, Structural)]
pub enum QueryMsg {
    Count {},
}

/// Answer to `QueryMsg::Count`.
#[derive(Clone, Copy, Debug, PartialEq, Eq, Structural)]
pub struct CountResp {
    pub count: u32,
}

} // verus!
