//! The decisions of a client that watches the registry and reports what it
//! sees: which announced objects it handles as known kinds, and which
//! connection errors end its session.
use vstd::prelude::*;
use crate::object_type::ObjectType;

verus! {

/// The id under which the connection itself reports errors.
pub const CORE_ID: u32 = 0;

/// The kinds the monitor handles itself; every other kind is reported whole.
pub open spec fn spec_is_tracked_kind(t: ObjectType) -> bool {
    match t {
        ObjectType::Node | ObjectType::Port | ObjectType::Module | ObjectType::Device
        | ObjectType::Factory | ObjectType::Client | ObjectType::Link => true,
        _ => false,
    }
}

/// The monitor handles objects of kind `t` itself, rather than reporting the
/// whole descriptor.
pub fn is_tracked_kind(t: &ObjectType) -> (r: bool)
    ensures
        r == spec_is_tracked_kind(*t),
{
    match t {
        ObjectType::Node | ObjectType::Port | ObjectType::Module | ObjectType::Device
        | ObjectType::Factory | ObjectType::Client | ObjectType::Link => true,
        _ => false,
    }
}

/// An error reported under `id` ends the session: only an error of the
/// connection itself does.
pub fn error_ends_session(id: u32) -> (r: bool)
    ensures
        r == (id == CORE_ID),
{
    id == CORE_ID
}

} // verus!
