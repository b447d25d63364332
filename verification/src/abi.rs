//! Identifiers, options and constants shared by both sides of the C ABI.

use vstd::prelude::*;

verus! {

/// The version of the C ABI this crate speaks.
pub const ABI_VERSION: u32 = 42;

/// The size of every text buffer lent to the engine.
pub const ERROR_CAPACITY: usize = 2048;

pub const SCRIPT_RUN_COMPLETED: u32 = 0;

pub const SCRIPT_RUN_THROWN: u32 = 1;

pub const SCRIPT_RUN_TERMINATED: u32 = 2;

pub const SCRIPT_COMPILED: u32 = 0;

pub const SCRIPT_COMPILE_THROWN: u32 = 1;

pub const INTERFACE_NULL: u8 = 0;

pub const INTERFACE_ELEMENT: u8 = 1;

pub const INTERFACE_DOCUMENT_FRAGMENT: u8 = 2;

// Named aliases keep generated ABI code self-describing.
pub const INTERFACE_KIND_NULL: u8 = INTERFACE_NULL;

pub const INTERFACE_KIND_ELEMENT: u8 = INTERFACE_ELEMENT;

pub const INTERFACE_KIND_DOCUMENT_FRAGMENT: u8 = INTERFACE_DOCUMENT_FRAGMENT;

pub const SELECTOR_RETURNED: u32 = 0;

pub const SELECTOR_SYNTAX_ERROR: u32 = 1;

pub const SELECTOR_HOST_FAILURE: u32 = 2;

pub const NODE_MUTATION_RETURNED: u32 = 0;

pub const NODE_MUTATION_DOM_EXCEPTION: u32 = 1;

pub const NODE_MUTATION_HOST_FAILURE: u32 = 2;

pub const NODE_MUTATION_EXCEPTION_NONE: u32 = 0;

pub const NODE_MUTATION_EXCEPTION_HIERARCHY_REQUEST: u32 = 1;

pub const NODE_MUTATION_EXCEPTION_NOT_FOUND: u32 = 2;

pub const ATTRIBUTE_MUTATION_RETURNED: u32 = 0;

pub const ATTRIBUTE_MUTATION_DOM_EXCEPTION: u32 = 1;

pub const ATTRIBUTE_MUTATION_HOST_FAILURE: u32 = 2;

pub const ATTRIBUTE_MUTATION_EXCEPTION_NONE: u32 = 0;

pub const ATTRIBUTE_MUTATION_EXCEPTION_INVALID_CHARACTER: u32 = 1;

/// The ABI spelling of a boolean.
pub open spec fn flag(value: bool) -> u8 {
    if value {
        1
    } else {
        0
    }
}

/// Spells a boolean the way the ABI does.
pub fn abi_flag(value: bool) -> (byte: u8)
    ensures
        byte == flag(value),
{
    if value {
        1
    } else {
        0
    }
}

/// Identifies an independent V8 context owned by a `Runtime`.
///
/// Realm IDs are runtime-local, never reused, and become invalid as soon as
/// `Runtime::destroy_realm` succeeds. Zero names no realm.
#[derive(Clone, Copy, Debug, Eq, Hash, PartialEq, Structural)]
pub struct RealmId(pub u64);

/// Identifies a compiled classic script retained by one V8 realm.
///
/// Script IDs are runtime-local, never reused, and consumed by the first call
/// to `Runtime::run_script_in_realm`, whether execution succeeds or throws.
#[derive(Clone, Copy, Debug, Eq, Hash, PartialEq, Structural)]
pub struct ScriptId(pub u64);

/// Identifies one V8 function and argument list retained for a timer.
///
/// Callback IDs are realm-local, never reused, and stop being valid when the
/// one-shot fires, the timer is cleared, or the realm is destroyed.
#[derive(Clone, Copy, Debug, Eq, Hash, PartialEq, Structural)]
pub struct TimerCallbackId(pub u64);

/// Engine flags fixed for the life of a `Runtime`.
#[derive(Clone, Copy, Debug, Eq, PartialEq, Structural)]
pub struct Options {
    pub enable_turbolev: u8,
    pub enable_turbolev_future: u8,
    pub expose_gc: u8,
}

impl Default for Options {
    fn default() -> (options: Self)
        ensures
            options == (Options { enable_turbolev: 1, enable_turbolev_future: 0, expose_gc: 0 }),
    {
        Options { enable_turbolev: 1, enable_turbolev_future: 0, expose_gc: 0 }
    }
}

/// A boolean crosses the ABI as one or zero: each is spelled by its own byte,
/// and no other byte spells either.
pub proof fn flags_are_one_or_zero(value: bool)
    ensures
        flag(value) == 1 <==> value,
        flag(value) == 0 <==> !value,
{
}

} // verus!
