//! The native side of a bridge between a DOM and the V8 engine.
//!
//! V8 handle types stay on the engine's side of a C ABI. What crosses it is
//! plain data: numbers, flags, byte ranges, addresses and owned allocations.
//! This crate says what each of those means. Its values stand for what the ABI
//! passes: an absent reference stands for a null pointer, an address of zero
//! for a null address, and a box for an allocation whose ownership moves.
//!
//! - `abi`: identifiers, options and the constants both sides share.
//! - `text`: borrowed UTF-8 arguments, text buffers, errors.
//! - `transfer`: strings and lists of strings handed to the engine.
//! - `handles`: DOM objects and collections handed to the engine.
//! - `outcomes`: results of host operations that can fail.
//! - `bindings`: the traits a host implements, and `calls`: what they receive.
//! - `element_host`, `node_host`, `collection_host`, `timer_host` and
//!   `console_host`: the callbacks through which the engine reaches a host.
//! - `script`: what the engine reports, and how a reply is read.
//! - `interrupt`: the state shared by a runtime and its interrupt handles.
//! - `runtime`: the runtime and its interrupt handle.

pub mod abi;
pub mod bindings;
pub mod calls;
pub mod collection_host;
pub mod console_host;
pub mod element_host;
pub mod handles;
pub mod interrupt;
pub mod node_host;
pub mod outcomes;
pub mod runtime;
pub mod script;
pub mod text;
pub mod timer_host;
pub mod transfer;

pub use crate::abi::{
    Options, RealmId, ScriptId, TimerCallbackId, INTERFACE_DOCUMENT_FRAGMENT, INTERFACE_ELEMENT,
    INTERFACE_KIND_DOCUMENT_FRAGMENT, INTERFACE_KIND_ELEMENT, INTERFACE_KIND_NULL, INTERFACE_NULL,
};
pub use crate::bindings::{
    ConsoleHostBinding, ElementHostBinding, HTMLCollectionHostBinding, NodeHostBinding,
    NodeListHostBinding, TimerHostBinding,
};
pub use crate::console_host::ConsoleLevel;
pub use crate::handles::{
    raw_interface_value, HTMLCollectionHandle, HTMLCollectionKey, InterfaceHandle, NodeListHandle,
    RawHTMLCollectionValue, RawInterfaceValue,
};
pub use crate::outcomes::{
    AttributeMutationException, NodeMutationException, NodeMutationResult, RawNodeMutationOutcome,
    RawSelectorBooleanOutcome, RawSelectorElementOutcome, RawSelectorNodeListOutcome,
    RawToggleAttributeOutcome, SelectorBooleanResult, SelectorElementResult,
    SelectorNodeListResult, ToggleAttributeResult,
};
pub use crate::runtime::{InterruptHandle, Runtime};
pub use crate::script::{JobError, ScriptCompileOutcome, ScriptException, ScriptRunOutcome};
pub use crate::text::{Error, Utf8Argument};
pub use crate::transfer::{OptionalOwnedUtf8, OwnedUtf8, OwnedUtf8Sequence, Utf8View};
