//! The success payload handed back to the host: a `cosmwasm_std::Response`
//! that carries a list of key/value attributes.
//!
//! `Response` belongs to `cosmwasm_std`, so the verifier sees it as an opaque
//! value. Its attribute list is given a name here, and the two functions that
//! build a response state their effect on that list.

use cosmwasm_std::{Empty, Response};
use vstd::prelude::*;

verus! {

/// `cosmwasm_std::Empty`, the placeholder for the custom messages that this
/// contract does not send. Declared as an opaque type.
#[verifier::external_type_specification]
#[verifier::external_body]
pub struct ExEmpty(Empty);

/// `cosmwasm_std::Response`. Declared as an opaque type: nothing is known of
/// a response but what the functions below state.
#[verifier::external_type_specification]
#[verifier::external_body]
#[verifier::reject_recursive_types(T)]
pub struct ExResponse<T>(Response<T>);

/// One attribute as a pair of texts: key, then value.
pub type AttributeView = (Seq<char>, Seq<char>);

/// The attributes of a response, in the order in which they were added.
pub uninterp spec fn response_attributes(r: Response<Empty>) -> Seq<AttributeView>;

/// Whether a response carries attributes only: no messages, no events, no data.
pub uninterp spec fn response_is_plain(r: Response<Empty>) -> bool;

/// A key that `cosmwasm_std` accepts for an attribute: it does not start with
/// an underscore.
pub open spec fn acceptable_key(key: Seq<char>) -> bool {
    key.len() == 0 || key[0] != '_'
}

/// `Response::new`: trusted to return a response with no attributes, no
/// messages, no events and no data.
#[verifier::external_body]
pub(crate) fn new_response() -> (r: Response<Empty>)
    ensures
        response_attributes(r) == Seq::<AttributeView>::empty(),
        response_is_plain(r),
{
    Response::new()
}

/// `Response::add_attribute`: trusted to append the pair `(key, value)` to the
/// attributes and to leave the rest of the response as it was. Keys that start
/// with an underscore are reserved, and debug builds of `cosmwasm_std` panic on
/// them, so they are excluded.
#[verifier::external_body]
pub(crate) fn add_attribute(r: Response<Empty>, key: &str, value: &str) -> (out: Response<Empty>)
    requires
        acceptable_key(key@),
    ensures
        response_attributes(out) == response_attributes(r).push((key@, value@)),
        response_is_plain(out) == response_is_plain(r),
{
    r.add_attribute(key, value)
}

} // verus!
