//! DOM objects and collections being handed to script.

use crate::abi;
use crate::abi::{INTERFACE_DOCUMENT_FRAGMENT, INTERFACE_ELEMENT, INTERFACE_NULL};
use crate::bindings::{ElementHostBinding, HTMLCollectionHostBinding, NodeListHostBinding};
use vstd::prelude::*;

verus! {

/// The ABI spelling of a nullable DOM object.
///
/// `key` is the address of the object, zero for null. `native` owns the boxed
/// host that travels with it.
pub struct RawInterfaceValue<T> {
    pub kind: u8,
    pub key: usize,
    pub native: Option<Box<T>>,
}

/// One DOM object being handed to script.
///
/// `key` identifies the object for the realm's wrapper cache, so that reading
/// the same object twice yields the same JavaScript object. A raw address is
/// safe here only because the wrapper cell keeps that object alive for exactly
/// as long as a cache entry for it can be hit.
///
/// `native` is a freshly boxed host. The bridge takes it only when it creates
/// a new wrapper, and drops it when an existing wrapper is found, so ownership
/// never straddles the two outcomes. `T` is the host type installed for every
/// V8-visible Node kind.
pub struct InterfaceHandle<T> {
    /// The dynamic Node interface represented by `native`.
    pub kind: u8,
    pub key: usize,
    pub native: Box<T>,
}

impl<T> InterfaceHandle<T> {
    /// The handle names a Node kind and a non-null object.
    pub open spec fn well_formed(self) -> bool {
        &&& self.kind == INTERFACE_ELEMENT || self.kind == INTERFACE_DOCUMENT_FRAGMENT
        &&& self.key != 0
    }
}

impl<T: ElementHostBinding> InterfaceHandle<T> {
    /// Boxes `host` as an `Element` Node and derives the cache key from
    /// `dom_object`, the address of the DOM object the host roots.
    pub fn new(dom_object: usize, host: T) -> (handle: Self)
        ensures
            handle.kind == INTERFACE_ELEMENT,
            handle.key == dom_object,
            *handle.native == host,
    {
        InterfaceHandle { kind: INTERFACE_ELEMENT, key: dom_object, native: Box::new(host) }
    }

    /// Boxes `host` as a `DocumentFragment` Node. The host type is shared with
    /// Elements, so one drop callback serves both kinds.
    pub fn document_fragment(dom_object: usize, host: T) -> (handle: Self)
        ensures
            handle.kind == INTERFACE_DOCUMENT_FRAGMENT,
            handle.key == dom_object,
            *handle.native == host,
    {
        InterfaceHandle {
            kind: INTERFACE_DOCUMENT_FRAGMENT,
            key: dom_object,
            native: Box::new(host),
        }
    }
}

/// The ABI spelling of a handle.
pub open spec fn interface_value<T>(handle: Option<InterfaceHandle<T>>) -> RawInterfaceValue<T> {
    match handle {
        Some(handle) => RawInterfaceValue {
            kind: handle.kind,
            key: handle.key,
            native: Some(handle.native),
        },
        None => RawInterfaceValue { kind: INTERFACE_NULL, key: 0, native: None },
    }
}

impl<T> RawInterfaceValue<T> {
    /// The handle a reader of the value recovers; `None` where kind, key and
    /// native do not agree.
    pub open spec fn reading(self) -> Option<Option<InterfaceHandle<T>>> {
        match self.native {
            None => if self.kind == INTERFACE_NULL && self.key == 0 {
                Some(None)
            } else {
                None
            },
            Some(native) => {
                let handle = InterfaceHandle { kind: self.kind, key: self.key, native };
                if handle.well_formed() {
                    Some(Some(handle))
                } else {
                    None
                }
            },
        }
    }
}

/// The null value.
pub fn raw_null_interface_value<T>() -> (value: RawInterfaceValue<T>)
    ensures
        value == interface_value::<T>(None),
{
    RawInterfaceValue { kind: INTERFACE_NULL, key: 0, native: None }
}

/// Converts an owned host transfer into the ABI spelling without erasing its
/// dynamic Node kind.
pub fn raw_interface_value<T>(handle: InterfaceHandle<T>) -> (value: RawInterfaceValue<T>)
    ensures
        value == interface_value(Some(handle)),
{
    RawInterfaceValue { kind: handle.kind, key: handle.key, native: Some(handle.native) }
}

/// Converts a nullable handle into the ABI spelling.
pub fn raw_optional_interface_value<T>(handle: Option<InterfaceHandle<T>>) -> (value:
    RawInterfaceValue<T>)
    ensures
        value == interface_value(handle),
{
    match handle {
        Some(handle) => raw_interface_value(handle),
        None => raw_null_interface_value(),
    }
}

/// Transfers a nullable handle into the caller's storage, where there is any.
pub fn element_host_write_interface_value<T>(
    output: Option<&mut RawInterfaceValue<T>>,
    handle: Option<InterfaceHandle<T>>,
) -> (status: u8)
    ensures
        status == abi::flag(output is Some),
        output matches Some(output) ==> *final(output) == interface_value(handle),
{
    match output {
        None => 0,
        Some(output) => {
            *output = raw_optional_interface_value(handle);
            1
        },
    }
}

/// One newly created static NodeList host being transferred to V8.
pub struct NodeListHandle<L> {
    pub native: Box<L>,
}

impl<L: NodeListHostBinding> NodeListHandle<L> {
    /// Boxes one NodeList host.
    pub fn new(host: L) -> (handle: Self)
        ensures
            *handle.native == host,
    {
        NodeListHandle { native: Box::new(host) }
    }
}

/// What a live collection is cached under.
#[derive(Clone, Copy, Debug, Eq, PartialEq, Structural)]
pub enum HTMLCollectionKey {
    /// The address of the collection's owner: reading the collection twice
    /// yields the same JavaScript object.
    Owner(usize),
    /// The address of the collection host's own allocation, which no other
    /// live collection can have: every transfer is a new JavaScript object.
    Native,
}

/// One live HTMLCollection host being transferred to V8.
pub struct HTMLCollectionHandle<C> {
    pub key: HTMLCollectionKey,
    pub native: Box<C>,
}

impl<C: HTMLCollectionHostBinding> HTMLCollectionHandle<C> {
    /// Boxes `host`; `key` identifies the collection's owner for the
    /// realm-local `[SameObject]` wrapper cache.
    pub fn new(key: usize, host: C) -> (handle: Self)
        ensures
            handle.key == HTMLCollectionKey::Owner(key),
            *handle.native == host,
    {
        HTMLCollectionHandle { key: HTMLCollectionKey::Owner(key), native: Box::new(host) }
    }

    /// Boxes a fresh operation result whose native allocation supplies its own
    /// unique wrapper-cache key. Unlike `new`, this does not make repeated
    /// calls return the same JavaScript object. A zero-sized host has no
    /// allocation of its own and so no such key.
    pub fn new_unique(host: C) -> (handle: Self)
        requires
            vstd::layout::size_of::<C>() != 0,
        ensures
            handle.key == HTMLCollectionKey::Native,
            *handle.native == host,
    {
        HTMLCollectionHandle { key: HTMLCollectionKey::Native, native: Box::new(host) }
    }
}

/// The ABI spelling of a live collection. On the ABI `HTMLCollectionKey::Native`
/// is the address in `native`.
pub struct RawHTMLCollectionValue<C> {
    pub key: HTMLCollectionKey,
    pub native: Option<Box<C>>,
}

/// The ABI spelling of a collection handle.
pub open spec fn collection_value<C>(handle: HTMLCollectionHandle<C>) -> RawHTMLCollectionValue<
    C,
> {
    RawHTMLCollectionValue { key: handle.key, native: Some(handle.native) }
}

/// Converts a collection handle into the ABI spelling.
pub fn raw_html_collection_value<C>(handle: HTMLCollectionHandle<C>) -> (value:
    RawHTMLCollectionValue<C>)
    ensures
        value == collection_value(handle),
{
    RawHTMLCollectionValue { key: handle.key, native: Some(handle.native) }
}

/// A reader of a transferred handle recovers the same Node kind, object and
/// host, a reader of the null value recovers null, and no other spelling reads
/// as either.
pub proof fn interface_values_read_back<T>(
    value: RawInterfaceValue<T>,
    handle: Option<InterfaceHandle<T>>,
)
    requires
        handle matches Some(handle) ==> handle.well_formed(),
    ensures
        value.reading() == Some(handle) <==> value == interface_value(handle),
{
}

/// A transferred handle keeps its kind, its key and its host, whatever they are,
/// and null is spelled by zeros and no host.
pub proof fn interface_values_keep_every_field<T>(handle: InterfaceHandle<T>)
    ensures
        interface_value(Some(handle)).kind == handle.kind,
        interface_value(Some(handle)).key == handle.key,
        interface_value(Some(handle)).native == Some(handle.native),
        interface_value(None::<InterfaceHandle<T>>).kind == 0,
        interface_value(None::<InterfaceHandle<T>>).key == 0,
        interface_value(None::<InterfaceHandle<T>>).native is None,
{
}

/// Two nullable handles are spelled alike exactly when they are the same: in
/// particular no two objects share a key, and no object is spelled as null.
pub proof fn interface_values_tell_handles_apart<T>(
    a: Option<InterfaceHandle<T>>,
    b: Option<InterfaceHandle<T>>,
)
    ensures
        interface_value(a) == interface_value(b) <==> a == b,
{
}

/// A handle is well formed when it names one of the two Node kinds and an
/// object.
pub proof fn well_formed_handles_name_a_node<T>(handle: InterfaceHandle<T>)
    ensures
        handle.well_formed() <==> (handle.kind == 1 || handle.kind == 2) && handle.key != 0,
{
}

/// A reader of a transferred collection recovers the handle: the same owner for
/// every owner, a unique collection for a unique one, and the handle's own host.
pub proof fn collection_values_read_back<C>(handle: HTMLCollectionHandle<C>)
    ensures
        handle.key matches HTMLCollectionKey::Owner(owner) ==> collection_value(handle).key
            == HTMLCollectionKey::Owner(owner),
        collection_value(handle).key is Native <==> handle.key is Native,
        collection_value(handle).native == Some(handle.native),
{
}

/// Two collections are spelled alike exactly when owner and host are the same,
/// so that distinct owners are cached under distinct keys.
pub proof fn collection_values_tell_handles_apart<C>(
    a: HTMLCollectionHandle<C>,
    b: HTMLCollectionHandle<C>,
)
    ensures
        collection_value(a) == collection_value(b) <==> a == b,
        collection_value(a).key == collection_value(b).key <==> a.key == b.key,
{
}

} // verus!
