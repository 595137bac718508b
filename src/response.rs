use vstd::prelude::*;
use cosmwasm_std::{Attribute, Binary, Empty, Event, Response, SubMsg};

verus! {

#[verifier::external_type_specification]
pub struct ExAttribute(Attribute);

#[verifier::external_type_specification]
pub struct ExEvent(Event);

#[verifier::external_type_specification]
pub struct ExEmpty(Empty);

#[verifier::external_type_specification]
#[verifier::external_body]
pub struct ExBinary(Binary);

#[verifier::external_type_specification]
#[verifier::external_body]
#[verifier::reject_recursive_types(T)]
pub struct ExSubMsg<T>(SubMsg<T>);

#[verifier::external_type_specification]
#[verifier::reject_recursive_types(T)]
pub struct ExResponse<T>(Response<T>);

/// Relies on `cosmwasm_std::Response::new`: the default response, with no
/// messages, attributes, events or data.
#[verifier::external_body]
pub(crate) fn new_response() -> (r: Response)
    ensures
        r.messages@.len() == 0,
        r.attributes@.len() == 0,
        r.events@.len() == 0,
        r.data is None,
{
    Response::new()
}

/// True when `a` is the attribute `key = value`.
pub open spec fn is_attribute(a: Attribute, key: Seq<char>, value: Seq<char>) -> bool {
    a.key@ == key && a.value@ == value
}

/// A key that `cosmwasm_std::Attribute::new` accepts: keys that start with
/// an underscore are reserved and make it panic.
pub open spec fn is_public_key(key: Seq<char>) -> bool {
    key.len() == 0 || key[0] != '_'
}

/// Relies on `cosmwasm_std::Response::add_attribute`: pushes the attribute
/// `key = value` onto `attributes` and leaves the other fields alone.
/// `Attribute::new`, which it calls, panics on a key that starts with `_`.
#[verifier::external_body]
pub(crate) fn add_response_attribute(resp: Response, key: &str, value: &str) -> (r: Response)
    requires
        is_public_key(key@),
    ensures
        r.attributes@.len() == resp.attributes@.len() + 1,
        r.attributes@.drop_last() == resp.attributes@,
        is_attribute(r.attributes@.last(), key@, value@),
        r.messages == resp.messages,
        r.events == resp.events,
        r.data == resp.data,
{
    resp.add_attribute(key, value)
}

/// Relies on `cosmwasm_std::Response::add_event`: pushes `event` onto
/// `events` and leaves the other fields alone.
#[verifier::external_body]
pub(crate) fn add_response_event(resp: Response, event: Event) -> (r: Response)
    ensures
        r.events@ == resp.events@.push(event),
        r.messages == resp.messages,
        r.attributes == resp.attributes,
        r.data == resp.data,
{
    resp.add_event(event)
}

/// Relies on `cosmwasm_std::Event::new`: an event of type `ty` with no
/// attributes.
#[verifier::external_body]
pub(crate) fn new_event(ty: &str) -> (r: Event)
    ensures
        r.ty@ == ty@,
        r.attributes@.len() == 0,
{
    Event::new(ty)
}

/// Relies on `cosmwasm_std::Event::add_attribute`: pushes the attribute
/// `key = value` onto the event's attributes and keeps its type.
#[verifier::external_body]
pub(crate) fn add_event_attribute(event: Event, key: &str, value: &str) -> (r: Event)
    ensures
        r.ty == event.ty,
        r.attributes@.len() == event.attributes@.len() + 1,
        r.attributes@.drop_last() == event.attributes@,
        is_attribute(r.attributes@.last(), key@, value@),
{
    event.add_attribute(key, value)
}

} // verus!
