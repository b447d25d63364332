//! The callbacks behind the two collection interfaces: static NodeLists and
//! live HTMLCollections.
//!
//! An absent receiver or output storage stands for a null pointer. A callback
//! answers one when it has written its output; otherwise it answers zero and
//! leaves the output as it was. A host is entered only with the call that the
//! arguments spell.

use crate::abi;
use crate::bindings::{HTMLCollectionHostBinding, NodeListHostBinding};
use crate::calls::{HTMLCollectionCall, NodeListCall};
use crate::handles;
use crate::handles::{element_host_write_interface_value, InterfaceHandle, RawInterfaceValue};
use crate::text::{element_host_utf8, Utf8Argument};
use crate::transfer::{element_host_write_owned_utf8, OwnedUtf8};
use vstd::prelude::*;

verus! {

/// Reads the length of a static list.
pub fn node_list_host_get_length<L: NodeListHostBinding>(
    native: Option<&L>,
    output: Option<&mut u32>,
) -> (status: u8)
    requires
        native is Some && output is Some ==> native->0.expects(NodeListCall::Length),
    ensures
        status == abi::flag(native is Some && output is Some),
        native is None ==> (output matches Some(output) ==> *final(output) == *output),
        native matches Some(native) ==> (output matches Some(output) ==> exists|value: u32|
            #[trigger] call_ensures(L::length, (native,), value) && *final(output) == value),
{
    let Some(native) = native else {
        return 0;
    };
    let Some(output) = output else {
        return 0;
    };
    *output = native.length();
    1
}

/// Reads one item of a static list, or null.
pub fn node_list_host_item<L: NodeListHostBinding>(
    native: Option<&L>,
    index: u32,
    output: Option<&mut RawInterfaceValue<L::Element>>,
) -> (status: u8)
    requires
        native is Some && output is Some ==> native->0.expects(NodeListCall::Item(index)),
    ensures
        status == abi::flag(native is Some && output is Some),
        native is None ==> (output matches Some(output) ==> *final(output) == *output),
        native matches Some(native) ==> (output matches Some(output) ==> exists|
            item: Option<InterfaceHandle<L::Element>>,
        | #[trigger]
            call_ensures(L::item, (native, index), item)
                && *final(output) == handles::interface_value(item)),
{
    let Some(native) = native else {
        return 0;
    };
    let Some(output) = output else {
        return 0;
    };
    let item = native.item(index);
    element_host_write_interface_value(Some(output), item)
}

/// Reads the length of a live collection.
pub fn html_collection_host_get_length<C: HTMLCollectionHostBinding>(
    native: Option<&C>,
    output: Option<&mut u32>,
) -> (status: u8)
    requires
        native is Some && output is Some ==> native->0.expects(HTMLCollectionCall::Length),
    ensures
        status == abi::flag(native is Some && output is Some),
        native is None ==> (output matches Some(output) ==> *final(output) == *output),
        native matches Some(native) ==> (output matches Some(output) ==> exists|value: u32|
            #[trigger] call_ensures(C::length, (native,), value) && *final(output) == value),
{
    let Some(native) = native else {
        return 0;
    };
    let Some(output) = output else {
        return 0;
    };
    *output = native.length();
    1
}

/// Reads one item of a live collection, or null.
pub fn html_collection_host_item<C: HTMLCollectionHostBinding>(
    native: Option<&C>,
    index: u32,
    output: Option<&mut RawInterfaceValue<C::Element>>,
) -> (status: u8)
    requires
        native is Some && output is Some ==> native->0.expects(HTMLCollectionCall::Item(index)),
    ensures
        status == abi::flag(native is Some && output is Some),
        native is None ==> (output matches Some(output) ==> *final(output) == *output),
        native matches Some(native) ==> (output matches Some(output) ==> exists|
            item: Option<InterfaceHandle<C::Element>>,
        | #[trigger]
            call_ensures(C::item, (native, index), item)
                && *final(output) == handles::interface_value(item)),
{
    let Some(native) = native else {
        return 0;
    };
    let Some(output) = output else {
        return 0;
    };
    let item = native.item(index);
    element_host_write_interface_value(Some(output), item)
}

/// Reads the item of a live collection that has the given name, or null.
pub fn html_collection_host_named_item<C: HTMLCollectionHostBinding>(
    native: Option<&C>,
    name: Utf8Argument<'_>,
    output: Option<&mut RawInterfaceValue<C::Element>>,
) -> (status: u8)
    requires
        native is Some && output is Some && name.text() is Some
            ==> native->0.expects(HTMLCollectionCall::NamedItem(name.text()->0)),
    ensures
        status == abi::flag(native is Some && output is Some && name.text() is Some),
        !(native is Some && name.text() is Some) ==> (output matches Some(output) ==> *final(output)
            == *output),
        native is Some && name.text() is Some ==> (output matches Some(output) ==> exists|
            text: &str,
            item: Option<InterfaceHandle<C::Element>>,
        | #[trigger]
            call_ensures(C::named_item, (native->0, text), item)
                && Some(text@) == name.text()
                && *final(output) == handles::interface_value(item)),
{
    let Some(native) = native else {
        return 0;
    };
    let Some(output) = output else {
        return 0;
    };
    let Some(text) = element_host_utf8(name) else {
        return 0;
    };
    let item = native.named_item(text);
    element_host_write_interface_value(Some(output), item)
}

/// Counts the supported names of a live collection. A count that does not fit
/// the ABI is answered zero.
pub fn html_collection_host_get_supported_name_count<C: HTMLCollectionHostBinding>(
    native: Option<&C>,
    output: Option<&mut u32>,
) -> (status: u8)
    requires
        native is Some && output is Some
            ==> native->0.expects(HTMLCollectionCall::SupportedNames),
    ensures
        native is None || output is None ==> status == 0,
        native is None ==> (output matches Some(output) ==> *final(output) == *output),
        native matches Some(native) ==> (output matches Some(output) ==> exists|
            names: Vec<String>,
        | #[trigger]
            call_ensures(C::supported_names, (native,), names)
                && status == abi::flag(names@.len() <= u32::MAX)
                && if names@.len() <= u32::MAX {
                *final(output) == names@.len()
            } else {
                *final(output) == *output
            }),
{
    let Some(native) = native else {
        return 0;
    };
    let Some(output) = output else {
        return 0;
    };
    let names = native.supported_names();
    let count: usize = names.len();
    if count > u32::MAX as usize {
        return 0;
    }
    *output = count as u32;
    1
}

/// Reads one supported name of a live collection. An index past the last name
/// is answered zero.
pub fn html_collection_host_supported_name<C: HTMLCollectionHostBinding>(
    native: Option<&C>,
    index: u32,
    output: Option<&mut OwnedUtf8>,
) -> (status: u8)
    requires
        native is Some && output is Some
            ==> native->0.expects(HTMLCollectionCall::SupportedNames),
    ensures
        native is None || output is None ==> status == 0,
        native is None ==> (output matches Some(output) ==> *final(output) == *output),
        native matches Some(native) ==> (output matches Some(output) ==> exists|
            names: Vec<String>,
        | #[trigger]
            call_ensures(C::supported_names, (native,), names)
                && status == abi::flag(index < names@.len())
                && if index < names@.len() {
                final(output).carries(names@[index as int]@)
            } else {
                *final(output) == *output
            }),
{
    let Some(native) = native else {
        return 0;
    };
    let Some(output) = output else {
        return 0;
    };
    let mut names = native.supported_names();
    if index as usize >= names.len() {
        return 0;
    }
    let name = names.swap_remove(index as usize);
    element_host_write_owned_utf8(Some(output), name)
}

} // verus!
