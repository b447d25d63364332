//! The callbacks behind every Element member that script can reach.
//!
//! A callback receives its receiver, the host context and its output storage
//! as the engine passed them, where an absent one stands for a null pointer
//! and a context of zero for a null context. It answers one when it has
//! written its output, or when a mutating host accepted the call, and zero
//! otherwise. A call whose arguments are malformed is answered zero, leaves the
//! output as it was, and does not enter the host: what a callback requires of
//! the host is that it expects the one call that well-formed arguments spell.
//! Where the host acts, the decision stands in a function of its own that is
//! given the call as a closure it can make only once.

use crate::abi;
use crate::abi::abi_flag;
use crate::bindings::ElementHostBinding;
use crate::calls::ElementCall;
use crate::handles;
use crate::handles::{
    element_host_write_interface_value, raw_html_collection_value, HTMLCollectionHandle,
    InterfaceHandle, RawHTMLCollectionValue, RawInterfaceValue,
};
use crate::outcomes;
use crate::outcomes::{
    raw_selector_boolean_outcome, raw_selector_element_outcome, raw_selector_node_list_outcome,
    raw_toggle_attribute_outcome, RawSelectorBooleanOutcome, RawSelectorElementOutcome,
    RawSelectorNodeListOutcome, RawToggleAttributeOutcome, SelectorBooleanResult,
    SelectorElementResult, SelectorNodeListResult, ToggleAttributeResult,
};
use crate::text;
use crate::text::{element_host_nullable_utf8, element_host_utf8, Utf8Argument};
use crate::transfer;
use crate::transfer::{
    element_host_write_optional_owned_utf8, element_host_write_owned_utf8,
    element_host_write_owned_utf8_sequence, OptionalOwnedUtf8, OwnedUtf8, OwnedUtf8Sequence,
};
use vstd::prelude::*;

verus! {

/// The `force` argument a pair of flags spells: absent is spelled by two zeros,
/// present by a one and a boolean, and no other pair spells anything.
pub open spec fn force_argument(force_is_present: u8, force: u8) -> Option<Option<bool>> {
    if force_is_present == 0 && force == 0 {
        Some(None)
    } else if force_is_present == 1 && force <= 1 {
        Some(Some(force == 1))
    } else {
        None
    }
}

/// Decides a call without arguments: the host is entered once where there is a
/// context, and otherwise not at all.
pub fn enter_with_context<F: FnOnce(usize) -> bool>(host_context: usize, enter: F) -> (status: u8)
    requires
        host_context != 0 ==> call_requires(enter, (host_context,)),
    ensures
        host_context == 0 ==> status == 0,
        host_context != 0 ==> exists|accepted: bool| #[trigger]
            call_ensures(enter, (host_context,), accepted) && status == abi::flag(accepted),
{
    if host_context == 0 {
        return 0;
    }
    abi_flag(enter(host_context))
}

/// Decides a call with one text argument: the host is entered once, with the
/// text that was spelled, or not at all.
pub fn enter_with_text<'a, F: FnOnce(usize, &'a str) -> bool>(
    host_context: usize,
    value: Utf8Argument<'a>,
    enter: F,
) -> (status: u8)
    requires
        host_context != 0 ==> forall|text: &'a str|
            Some(text@) == value.text() ==> #[trigger] call_requires(enter, (host_context, text)),
    ensures
        host_context == 0 || value.text() is None ==> status == 0,
        host_context != 0 && value.text() is Some ==> exists|text: &'a str, accepted: bool|
            #[trigger] call_ensures(enter, (host_context, text), accepted)
                && Some(text@) == value.text()
                && status == abi::flag(accepted),
{
    if host_context == 0 {
        return 0;
    }
    let Some(text) = element_host_utf8(value) else {
        return 0;
    };
    abi_flag(enter(host_context, text))
}

/// Decides a call with one nullable text argument: the host is entered once,
/// with the value that was spelled, or not at all.
pub fn enter_with_nullable_text<'a, F: FnOnce(usize, Option<&'a str>) -> bool>(
    host_context: usize,
    is_null: u8,
    value: Utf8Argument<'a>,
    enter: F,
) -> (status: u8)
    requires
        host_context != 0 ==> forall|content: Option<&'a str>|
            Some(text::optional_text(content)) == value.nullable_text(is_null)
                ==> #[trigger] call_requires(enter, (host_context, content)),
    ensures
        host_context == 0 || value.nullable_text(is_null) is None ==> status == 0,
        host_context != 0 && value.nullable_text(is_null) is Some ==> exists|
            content: Option<&'a str>,
            accepted: bool,
        | #[trigger]
            call_ensures(enter, (host_context, content), accepted)
                && Some(text::optional_text(content)) == value.nullable_text(is_null)
                && status == abi::flag(accepted),
{
    if host_context == 0 {
        return 0;
    }
    let Some(content) = element_host_nullable_utf8(is_null, value) else {
        return 0;
    };
    abi_flag(enter(host_context, content))
}

/// Decides a call with a namespace and a local name: the host is entered once,
/// with the names that were spelled, or not at all.
pub fn enter_with_namespace<'a, F: FnOnce(usize, Option<&'a str>, &'a str) -> bool>(
    host_context: usize,
    namespace_is_null: u8,
    namespace: Utf8Argument<'a>,
    local_name: Utf8Argument<'a>,
    enter: F,
) -> (status: u8)
    requires
        host_context != 0 ==> forall|namespace_text: Option<&'a str>, local_text: &'a str|
            Some(text::optional_text(namespace_text)) == namespace.nullable_text(namespace_is_null)
                && Some(local_text@) == local_name.text()
                ==> #[trigger] call_requires(enter, (host_context, namespace_text, local_text)),
    ensures
        host_context == 0 || namespace.nullable_text(namespace_is_null) is None
            || local_name.text() is None ==> status == 0,
        host_context != 0 && namespace.nullable_text(namespace_is_null) is Some
            && local_name.text() is Some ==> exists|
            namespace_text: Option<&'a str>,
            local_text: &'a str,
            accepted: bool,
        | #[trigger]
            call_ensures(enter, (host_context, namespace_text, local_text), accepted)
                && Some(text::optional_text(namespace_text))
                    == namespace.nullable_text(namespace_is_null)
                && Some(local_text@) == local_name.text()
                && status == abi::flag(accepted),
{
    if host_context == 0 {
        return 0;
    }
    let Some(namespace) = element_host_nullable_utf8(namespace_is_null, namespace) else {
        return 0;
    };
    let Some(local_name) = element_host_utf8(local_name) else {
        return 0;
    };
    abi_flag(enter(host_context, namespace, local_name))
}

/// Decides a toggle: the host is entered once, with the name and the force that
/// were spelled, or not at all.
pub fn enter_toggle<'a, F: FnOnce(usize, &'a str, Option<bool>) -> ToggleAttributeResult>(
    host_context: usize,
    name: Utf8Argument<'a>,
    force_is_present: u8,
    force: u8,
    output: Option<&mut RawToggleAttributeOutcome>,
    enter: F,
) -> (status: u8)
    requires
        host_context != 0 && output is Some ==> forall|text: &'a str, forced: Option<bool>|
            Some(text@) == name.text() && Some(forced) == force_argument(force_is_present, force)
                ==> #[trigger] call_requires(enter, (host_context, text, forced)),
    ensures
        output is None ==> status == 0,
        !(host_context != 0 && name.text() is Some
            && force_argument(force_is_present, force) is Some)
            ==> status == 0 && (output matches Some(output) ==> *final(output) == *output),
        host_context != 0 && name.text() is Some
            && force_argument(force_is_present, force) is Some
            ==> (output matches Some(output) ==> exists|
            text: &'a str,
            forced: Option<bool>,
            result: ToggleAttributeResult,
        | #[trigger]
            call_ensures(enter, (host_context, text, forced), result)
                && Some(text@) == name.text()
                && Some(forced) == force_argument(force_is_present, force)
                && status == 1
                && final(output).carries(result@)),
{
    if host_context == 0 {
        return 0;
    }
    let Some(output) = output else {
        return 0;
    };
    if force_is_present > 1 || force > 1 || (force_is_present == 0 && force != 0) {
        return 0;
    }
    let forced = if force_is_present != 0 {
        Some(force != 0)
    } else {
        None
    };
    let Some(text) = element_host_utf8(name) else {
        return 0;
    };
    *output = raw_toggle_attribute_outcome(enter(host_context, text, forced));
    1
}

/// Decides a query by namespace and local name: the host is entered once, with
/// the names that were spelled, or not at all.
pub fn enter_namespace_query<
    'a,
    C,
    F: FnOnce(Option<&'a str>, &'a str) -> HTMLCollectionHandle<C>,
>(
    namespace_is_null: u8,
    namespace: Utf8Argument<'a>,
    local_name: Utf8Argument<'a>,
    output: Option<&mut RawHTMLCollectionValue<C>>,
    enter: F,
) -> (status: u8)
    requires
        output is Some ==> forall|namespace_text: Option<&'a str>, local_text: &'a str|
            Some(text::optional_text(namespace_text)) == namespace.nullable_text(namespace_is_null)
                && Some(local_text@) == local_name.text()
                ==> #[trigger] call_requires(enter, (namespace_text, local_text)),
    ensures
        output is None ==> status == 0,
        !(namespace.nullable_text(namespace_is_null) is Some && local_name.text() is Some)
            ==> status == 0 && (output matches Some(output) ==> *final(output) == *output),
        namespace.nullable_text(namespace_is_null) is Some && local_name.text() is Some
            ==> (output matches Some(output) ==> exists|
            namespace_text: Option<&'a str>,
            local_text: &'a str,
            result: HTMLCollectionHandle<C>,
        | #[trigger]
            call_ensures(enter, (namespace_text, local_text), result)
                && Some(text::optional_text(namespace_text))
                    == namespace.nullable_text(namespace_is_null)
                && Some(local_text@) == local_name.text()
                && status == 1
                && *final(output) == handles::collection_value(result)),
{
    let Some(output) = output else {
        return 0;
    };
    let Some(namespace) = element_host_nullable_utf8(namespace_is_null, namespace) else {
        return 0;
    };
    let Some(local_name) = element_host_utf8(local_name) else {
        return 0;
    };
    *output = raw_html_collection_value(enter(namespace, local_name));
    1
}

/// Reads the local name. The host is asked even where there is no output storage.
pub fn element_host_get_local_name<T: ElementHostBinding>(
    native: Option<&T>,
    output: Option<&mut OwnedUtf8>,
) -> (status: u8)
    requires
        native is Some ==> native->0.expects(ElementCall::LocalName),
    ensures
        status == abi::flag(native is Some && output is Some),
        native is None ==> (output matches Some(output) ==> *final(output) == *output),
        native matches Some(native) ==> exists|value: String|
            #[trigger] call_ensures(T::local_name, (native,), value) && (output matches Some(output)
                ==> final(output).carries(value@)),
{
    let Some(native) = native else {
        return 0;
    };
    let value = native.local_name();
    element_host_write_owned_utf8(output, value)
}

/// Reads the tag name. The host is asked even where there is no output storage.
pub fn element_host_get_tag_name<T: ElementHostBinding>(
    native: Option<&T>,
    output: Option<&mut OwnedUtf8>,
) -> (status: u8)
    requires
        native is Some ==> native->0.expects(ElementCall::TagName),
    ensures
        status == abi::flag(native is Some && output is Some),
        native is None ==> (output matches Some(output) ==> *final(output) == *output),
        native matches Some(native) ==> exists|value: String|
            #[trigger] call_ensures(T::tag_name, (native,), value) && (output matches Some(output)
                ==> final(output).carries(value@)),
{
    let Some(native) = native else {
        return 0;
    };
    let value = native.tag_name();
    element_host_write_owned_utf8(output, value)
}

/// Reads the id. The host is asked even where there is no output storage.
pub fn element_host_get_id<T: ElementHostBinding>(
    native: Option<&T>,
    output: Option<&mut OwnedUtf8>,
) -> (status: u8)
    requires
        native is Some ==> native->0.expects(ElementCall::Id),
    ensures
        status == abi::flag(native is Some && output is Some),
        native is None ==> (output matches Some(output) ==> *final(output) == *output),
        native matches Some(native) ==> exists|value: String|
            #[trigger] call_ensures(T::id, (native,), value) && (output matches Some(output)
                ==> final(output).carries(value@)),
{
    let Some(native) = native else {
        return 0;
    };
    let value = native.id();
    element_host_write_owned_utf8(output, value)
}

/// Reads the class name. The host is asked even where there is no output storage.
pub fn element_host_get_class_name<T: ElementHostBinding>(
    native: Option<&T>,
    output: Option<&mut OwnedUtf8>,
) -> (status: u8)
    requires
        native is Some ==> native->0.expects(ElementCall::ClassName),
    ensures
        status == abi::flag(native is Some && output is Some),
        native is None ==> (output matches Some(output) ==> *final(output) == *output),
        native matches Some(native) ==> exists|value: String|
            #[trigger] call_ensures(T::class_name, (native,), value) && (output matches Some(output)
                ==> final(output).carries(value@)),
{
    let Some(native) = native else {
        return 0;
    };
    let value = native.class_name();
    element_host_write_owned_utf8(output, value)
}

/// Reads the node name. The host is asked even where there is no output storage.
pub fn element_host_get_node_name<T: ElementHostBinding>(
    native: Option<&T>,
    output: Option<&mut OwnedUtf8>,
) -> (status: u8)
    requires
        native is Some ==> native->0.expects(ElementCall::NodeName),
    ensures
        status == abi::flag(native is Some && output is Some),
        native is None ==> (output matches Some(output) ==> *final(output) == *output),
        native matches Some(native) ==> exists|value: String|
            #[trigger] call_ensures(T::node_name, (native,), value) && (output matches Some(output)
                ==> final(output).carries(value@)),
{
    let Some(native) = native else {
        return 0;
    };
    let value = native.node_name();
    element_host_write_owned_utf8(output, value)
}

/// Reads the namespace URI.
pub fn element_host_get_namespace_uri<T: ElementHostBinding>(
    native: Option<&T>,
    output: Option<&mut OptionalOwnedUtf8>,
) -> (status: u8)
    requires
        native is Some && output is Some ==> native->0.expects(ElementCall::NamespaceUri),
    ensures
        status == abi::flag(native is Some && output is Some),
        native is None ==> (output matches Some(output) ==> *final(output) == *output),
        native matches Some(native) ==> (output matches Some(output) ==> exists|
            value: Option<String>,
        | #[trigger]
            call_ensures(T::namespace_uri, (native,), value)
                && final(output).carries(transfer::optional_string(value))),
{
    let Some(native) = native else {
        return 0;
    };
    let Some(output) = output else {
        return 0;
    };
    let value = native.namespace_uri();
    element_host_write_optional_owned_utf8(Some(output), value)
}

/// Reads the namespace prefix.
pub fn element_host_get_prefix<T: ElementHostBinding>(
    native: Option<&T>,
    output: Option<&mut OptionalOwnedUtf8>,
) -> (status: u8)
    requires
        native is Some && output is Some ==> native->0.expects(ElementCall::Prefix),
    ensures
        status == abi::flag(native is Some && output is Some),
        native is None ==> (output matches Some(output) ==> *final(output) == *output),
        native matches Some(native) ==> (output matches Some(output) ==> exists|
            value: Option<String>,
        | #[trigger]
            call_ensures(T::prefix, (native,), value)
                && final(output).carries(transfer::optional_string(value))),
{
    let Some(native) = native else {
        return 0;
    };
    let Some(output) = output else {
        return 0;
    };
    let value = native.prefix();
    element_host_write_optional_owned_utf8(Some(output), value)
}

/// Sets the id.
pub fn element_host_set_id<T: ElementHostBinding>(
    native: Option<&T>,
    host_context: usize,
    value: Utf8Argument<'_>,
) -> (status: u8)
    requires
        native is Some && host_context != 0 && value.text() is Some
            ==> native->0.expects(ElementCall::SetId(host_context, value.text()->0)),
    ensures
        native is None || host_context == 0 || value.text() is None ==> status == 0,
        native matches Some(native) ==> (host_context != 0 && value.text() is Some ==> exists|
            text: &str,
            accepted: bool,
        | #[trigger]
            call_ensures(T::set_id, (native, host_context, text), accepted)
                && Some(text@) == value.text()
                && status == abi::flag(accepted)),
{
    let Some(native) = native else {
        return 0;
    };
    let enter = |context: usize, text: &str| -> (accepted: bool)
        requires
            context != 0,
            native.expects(ElementCall::SetId(context, text@)),
        ensures
            call_ensures(T::set_id, (native, context, text), accepted),
    {
        native.set_id(context, text)
    };
    enter_with_text(host_context, value, enter)
}

/// Sets the class name.
pub fn element_host_set_class_name<T: ElementHostBinding>(
    native: Option<&T>,
    host_context: usize,
    value: Utf8Argument<'_>,
) -> (status: u8)
    requires
        native is Some && host_context != 0 && value.text() is Some
            ==> native->0.expects(ElementCall::SetClassName(host_context, value.text()->0)),
    ensures
        native is None || host_context == 0 || value.text() is None ==> status == 0,
        native matches Some(native) ==> (host_context != 0 && value.text() is Some ==> exists|
            text: &str,
            accepted: bool,
        | #[trigger]
            call_ensures(T::set_class_name, (native, host_context, text), accepted)
                && Some(text@) == value.text()
                && status == abi::flag(accepted)),
{
    let Some(native) = native else {
        return 0;
    };
    let enter = |context: usize, text: &str| -> (accepted: bool)
        requires
            context != 0,
            native.expects(ElementCall::SetClassName(context, text@)),
        ensures
            call_ensures(T::set_class_name, (native, context, text), accepted),
    {
        native.set_class_name(context, text)
    };
    enter_with_text(host_context, value, enter)
}

/// Tells whether there are attributes.
pub fn element_host_has_attributes<T: ElementHostBinding>(
    native: Option<&T>,
    output: Option<&mut u8>,
) -> (status: u8)
    requires
        native is Some && output is Some ==> native->0.expects(ElementCall::HasAttributes),
    ensures
        status == abi::flag(native is Some && output is Some),
        native is None ==> (output matches Some(output) ==> *final(output) == *output),
        native matches Some(native) ==> (output matches Some(output) ==> exists|
            value: bool,
        | #[trigger]
            call_ensures(T::has_attributes, (native,), value)
                && *final(output) == abi::flag(value)),
{
    let Some(native) = native else {
        return 0;
    };
    let Some(output) = output else {
        return 0;
    };
    let value = native.has_attributes();
    *output = abi_flag(value);
    1
}

/// Lists the qualified names of the attributes.
pub fn element_host_get_attribute_names<T: ElementHostBinding>(
    native: Option<&T>,
    output: Option<&mut OwnedUtf8Sequence>,
) -> (status: u8)
    requires
        native is Some && output is Some ==> native->0.expects(ElementCall::GetAttributeNames),
    ensures
        status == abi::flag(native is Some && output is Some),
        native is None ==> (output matches Some(output) ==> *final(output) == *output),
        native matches Some(native) ==> (output matches Some(output) ==> exists|
            value: Vec<String>,
        | #[trigger]
            call_ensures(T::get_attribute_names, (native,), value)
                && final(output).carries(transfer::string_views(value@))),
{
    let Some(native) = native else {
        return 0;
    };
    let Some(output) = output else {
        return 0;
    };
    let value = native.get_attribute_names();
    element_host_write_owned_utf8_sequence(Some(output), value)
}

/// Reads one attribute by qualified name; a host that fails leaves the output as
/// it was.
pub fn element_host_get_attribute<T: ElementHostBinding>(
    native: Option<&T>,
    host_context: usize,
    name: Utf8Argument<'_>,
    output: Option<&mut OptionalOwnedUtf8>,
) -> (status: u8)
    requires
        native is Some && host_context != 0 && name.text() is Some && output is Some
            ==> native->0.expects(ElementCall::GetAttribute(host_context, name.text()->0)),
    ensures
        output is None ==> status == 0,
        !(native is Some && host_context != 0 && name.text() is Some)
            ==> status == 0 && (output matches Some(output) ==> *final(output) == *output),
        native is Some && host_context != 0 && name.text() is Some
            ==> (output matches Some(output) ==> exists|
            text: &str,
            result: Result<Option<String>, ()>,
        | #[trigger]
            call_ensures(T::get_attribute, (native->0, host_context, text), result)
                && Some(text@) == name.text()
                && match result {
                Ok(value) => status == 1 && final(output).carries(
                    transfer::optional_string(value),
                ),
                Err(_) => status == 0 && *final(output) == *output,
            }),
{
    let Some(native) = native else {
        return 0;
    };
    if host_context == 0 {
        return 0;
    }
    let Some(output) = output else {
        return 0;
    };
    let Some(text) = element_host_utf8(name) else {
        return 0;
    };
    let result = native.get_attribute(host_context, text);
    let Ok(value) = result else {
        return 0;
    };
    element_host_write_optional_owned_utf8(Some(output), value)
}

/// Tests for one attribute by qualified name; a host that fails leaves the
/// output as it was.
pub fn element_host_has_attribute<T: ElementHostBinding>(
    native: Option<&T>,
    host_context: usize,
    name: Utf8Argument<'_>,
    output: Option<&mut u8>,
) -> (status: u8)
    requires
        native is Some && host_context != 0 && name.text() is Some && output is Some
            ==> native->0.expects(ElementCall::HasAttribute(host_context, name.text()->0)),
    ensures
        output is None ==> status == 0,
        !(native is Some && host_context != 0 && name.text() is Some)
            ==> status == 0 && (output matches Some(output) ==> *final(output) == *output),
        native is Some && host_context != 0 && name.text() is Some
            ==> (output matches Some(output) ==> exists|
            text: &str,
            result: Option<bool>,
        | #[trigger]
            call_ensures(T::has_attribute, (native->0, host_context, text), result)
                && Some(text@) == name.text()
                && match result {
                Some(value) => status == 1 && *final(output) == abi::flag(value),
                None => status == 0 && *final(output) == *output,
            }),
{
    let Some(native) = native else {
        return 0;
    };
    if host_context == 0 {
        return 0;
    }
    let Some(output) = output else {
        return 0;
    };
    let Some(text) = element_host_utf8(name) else {
        return 0;
    };
    let result = native.has_attribute(host_context, text);
    let Some(value) = result else {
        return 0;
    };
    *output = abi_flag(value);
    1
}

/// Reads one attribute by namespace and local name.
pub fn element_host_get_attribute_ns<T: ElementHostBinding>(
    native: Option<&T>,
    host_context: usize,
    namespace_is_null: u8,
    namespace: Utf8Argument<'_>,
    local_name: Utf8Argument<'_>,
    output: Option<&mut OptionalOwnedUtf8>,
) -> (status: u8)
    requires
        native is Some && host_context != 0
            && namespace.nullable_text(namespace_is_null) is Some && local_name.text() is Some
            && output is Some
            ==> native->0.expects(
            ElementCall::GetAttributeNs(
                host_context,
                namespace.nullable_text(namespace_is_null)->0,
                local_name.text()->0,
            ),
        ),
    ensures
        output is None ==> status == 0,
        !(native is Some && host_context != 0
            && namespace.nullable_text(namespace_is_null) is Some && local_name.text() is Some)
            ==> status == 0 && (output matches Some(output) ==> *final(output) == *output),
        native is Some && host_context != 0
            && namespace.nullable_text(namespace_is_null) is Some && local_name.text() is Some
            ==> (output matches Some(output) ==> exists|
            namespace_text: Option<&str>,
            local_text: &str,
            result: Result<Option<String>, ()>,
        | #[trigger]
            call_ensures(
                T::get_attribute_ns,
                (native->0, host_context, namespace_text, local_text),
                result,
            )
                && Some(text::optional_text(namespace_text))
                    == namespace.nullable_text(namespace_is_null)
                && Some(local_text@) == local_name.text()
                && match result {
                Ok(value) => status == 1 && final(output).carries(
                    transfer::optional_string(value),
                ),
                Err(_) => status == 0 && *final(output) == *output,
            }),
{
    let Some(native) = native else {
        return 0;
    };
    if host_context == 0 {
        return 0;
    }
    let Some(output) = output else {
        return 0;
    };
    let Some(namespace) = element_host_nullable_utf8(namespace_is_null, namespace) else {
        return 0;
    };
    let Some(local_name) = element_host_utf8(local_name) else {
        return 0;
    };
    let result = native.get_attribute_ns(host_context, namespace, local_name);
    let Ok(value) = result else {
        return 0;
    };
    element_host_write_optional_owned_utf8(Some(output), value)
}

/// Tests for one attribute by namespace and local name.
pub fn element_host_has_attribute_ns<T: ElementHostBinding>(
    native: Option<&T>,
    host_context: usize,
    namespace_is_null: u8,
    namespace: Utf8Argument<'_>,
    local_name: Utf8Argument<'_>,
    output: Option<&mut u8>,
) -> (status: u8)
    requires
        native is Some && host_context != 0
            && namespace.nullable_text(namespace_is_null) is Some && local_name.text() is Some
            && output is Some
            ==> native->0.expects(
            ElementCall::HasAttributeNs(
                host_context,
                namespace.nullable_text(namespace_is_null)->0,
                local_name.text()->0,
            ),
        ),
    ensures
        output is None ==> status == 0,
        !(native is Some && host_context != 0
            && namespace.nullable_text(namespace_is_null) is Some && local_name.text() is Some)
            ==> status == 0 && (output matches Some(output) ==> *final(output) == *output),
        native is Some && host_context != 0
            && namespace.nullable_text(namespace_is_null) is Some && local_name.text() is Some
            ==> (output matches Some(output) ==> exists|
            namespace_text: Option<&str>,
            local_text: &str,
            result: Option<bool>,
        | #[trigger]
            call_ensures(
                T::has_attribute_ns,
                (native->0, host_context, namespace_text, local_text),
                result,
            )
                && Some(text::optional_text(namespace_text))
                    == namespace.nullable_text(namespace_is_null)
                && Some(local_text@) == local_name.text()
                && match result {
                Some(value) => status == 1 && *final(output) == abi::flag(value),
                None => status == 0 && *final(output) == *output,
            }),
{
    let Some(native) = native else {
        return 0;
    };
    if host_context == 0 {
        return 0;
    }
    let Some(output) = output else {
        return 0;
    };
    let Some(namespace) = element_host_nullable_utf8(namespace_is_null, namespace) else {
        return 0;
    };
    let Some(local_name) = element_host_utf8(local_name) else {
        return 0;
    };
    let result = native.has_attribute_ns(host_context, namespace, local_name);
    let Some(value) = result else {
        return 0;
    };
    *output = abi_flag(value);
    1
}

/// Toggles one attribute, or forces it on or off.
pub fn element_host_toggle_attribute<T: ElementHostBinding>(
    native: Option<&T>,
    host_context: usize,
    name: Utf8Argument<'_>,
    force_is_present: u8,
    force: u8,
    output: Option<&mut RawToggleAttributeOutcome>,
) -> (status: u8)
    requires
        native is Some && host_context != 0 && name.text() is Some
            && force_argument(force_is_present, force) is Some && output is Some
            ==> native->0.expects(
            ElementCall::ToggleAttribute(
                host_context,
                name.text()->0,
                force_argument(force_is_present, force)->0,
            ),
        ),
    ensures
        output is None ==> status == 0,
        !(native is Some && host_context != 0 && name.text() is Some
            && force_argument(force_is_present, force) is Some)
            ==> status == 0 && (output matches Some(output) ==> *final(output) == *output),
        native is Some && host_context != 0 && name.text() is Some
            && force_argument(force_is_present, force) is Some
            ==> (output matches Some(output) ==> exists|
            text: &str,
            forced: Option<bool>,
            result: ToggleAttributeResult,
        | #[trigger]
            call_ensures(T::toggle_attribute, (native->0, host_context, text, forced), result)
                && Some(text@) == name.text()
                && Some(forced) == force_argument(force_is_present, force)
                && status == 1
                && final(output).carries(result@)),
{
    let Some(native) = native else {
        return 0;
    };
    let enter = |context: usize, text: &str, forced: Option<bool>| -> (result:
        ToggleAttributeResult)
        requires
            context != 0,
            native.expects(ElementCall::ToggleAttribute(context, text@, forced)),
        ensures
            call_ensures(T::toggle_attribute, (native, context, text, forced), result),
    {
        native.toggle_attribute(context, text, forced)
    };
    enter_toggle(host_context, name, force_is_present, force, output, enter)
}

/// Removes one attribute by qualified name.
pub fn element_host_remove_attribute<T: ElementHostBinding>(
    native: Option<&T>,
    host_context: usize,
    name: Utf8Argument<'_>,
) -> (status: u8)
    requires
        native is Some && host_context != 0 && name.text() is Some
            ==> native->0.expects(ElementCall::RemoveAttribute(host_context, name.text()->0)),
    ensures
        native is None || host_context == 0 || name.text() is None ==> status == 0,
        native matches Some(native) ==> (host_context != 0 && name.text() is Some ==> exists|
            text: &str,
            accepted: bool,
        | #[trigger]
            call_ensures(T::remove_attribute, (native, host_context, text), accepted)
                && Some(text@) == name.text()
                && status == abi::flag(accepted)),
{
    let Some(native) = native else {
        return 0;
    };
    let enter = |context: usize, text: &str| -> (accepted: bool)
        requires
            context != 0,
            native.expects(ElementCall::RemoveAttribute(context, text@)),
        ensures
            call_ensures(T::remove_attribute, (native, context, text), accepted),
    {
        native.remove_attribute(context, text)
    };
    enter_with_text(host_context, name, enter)
}

/// Removes one attribute by namespace and local name.
pub fn element_host_remove_attribute_ns<T: ElementHostBinding>(
    native: Option<&T>,
    host_context: usize,
    namespace_is_null: u8,
    namespace: Utf8Argument<'_>,
    local_name: Utf8Argument<'_>,
) -> (status: u8)
    requires
        native is Some && host_context != 0
            && namespace.nullable_text(namespace_is_null) is Some && local_name.text() is Some
            ==> native->0.expects(
            ElementCall::RemoveAttributeNs(
                host_context,
                namespace.nullable_text(namespace_is_null)->0,
                local_name.text()->0,
            ),
        ),
    ensures
        native is None || host_context == 0 || namespace.nullable_text(namespace_is_null) is None
            || local_name.text() is None ==> status == 0,
        native matches Some(native) ==> (host_context != 0 && namespace.nullable_text(
            namespace_is_null,
        ) is Some && local_name.text() is Some ==> exists|
            namespace_text: Option<&str>,
            local_text: &str,
            accepted: bool,
        | #[trigger]
            call_ensures(
                T::remove_attribute_ns,
                (native, host_context, namespace_text, local_text),
                accepted,
            )
                && Some(text::optional_text(namespace_text))
                    == namespace.nullable_text(namespace_is_null)
                && Some(local_text@) == local_name.text()
                && status == abi::flag(accepted)),
{
    let Some(native) = native else {
        return 0;
    };
    let enter = |context: usize, namespace: Option<&str>, local_name: &str| -> (accepted: bool)
        requires
            context != 0,
            native.expects(
                ElementCall::RemoveAttributeNs(
                    context,
                    text::optional_text(namespace),
                    local_name@,
                ),
            ),
        ensures
            call_ensures(
                T::remove_attribute_ns,
                (native, context, namespace, local_name),
                accepted,
            ),
    {
        native.remove_attribute_ns(context, namespace, local_name)
    };
    enter_with_namespace(host_context, namespace_is_null, namespace, local_name, enter)
}

/// Reads the node type.
pub fn element_host_get_node_type<T: ElementHostBinding>(
    native: Option<&T>,
    output: Option<&mut u16>,
) -> (status: u8)
    requires
        native is Some && output is Some ==> native->0.expects(ElementCall::NodeType),
    ensures
        status == abi::flag(native is Some && output is Some),
        native is None ==> (output matches Some(output) ==> *final(output) == *output),
        native matches Some(native) ==> (output matches Some(output) ==> exists|
            value: u16,
        | #[trigger]
            call_ensures(T::node_type, (native,), value)
                && *final(output) == value),
{
    let Some(native) = native else {
        return 0;
    };
    let Some(output) = output else {
        return 0;
    };
    let value = native.node_type();
    *output = value;
    1
}

/// Tells whether the node is connected.
pub fn element_host_get_is_connected<T: ElementHostBinding>(
    native: Option<&T>,
    output: Option<&mut u8>,
) -> (status: u8)
    requires
        native is Some && output is Some ==> native->0.expects(ElementCall::IsConnected),
    ensures
        status == abi::flag(native is Some && output is Some),
        native is None ==> (output matches Some(output) ==> *final(output) == *output),
        native matches Some(native) ==> (output matches Some(output) ==> exists|
            value: bool,
        | #[trigger]
            call_ensures(T::is_connected, (native,), value)
                && *final(output) == abi::flag(value)),
{
    let Some(native) = native else {
        return 0;
    };
    let Some(output) = output else {
        return 0;
    };
    let value = native.is_connected();
    *output = abi_flag(value);
    1
}

/// Reads the text content.
pub fn element_host_get_text_content<T: ElementHostBinding>(
    native: Option<&T>,
    output: Option<&mut OptionalOwnedUtf8>,
) -> (status: u8)
    requires
        native is Some && output is Some ==> native->0.expects(ElementCall::TextContent),
    ensures
        status == abi::flag(native is Some && output is Some),
        native is None ==> (output matches Some(output) ==> *final(output) == *output),
        native matches Some(native) ==> (output matches Some(output) ==> exists|
            value: Option<String>,
        | #[trigger]
            call_ensures(T::text_content, (native,), value)
                && final(output).carries(transfer::optional_string(value))),
{
    let Some(native) = native else {
        return 0;
    };
    let Some(output) = output else {
        return 0;
    };
    let value = native.text_content();
    element_host_write_optional_owned_utf8(Some(output), value)
}

/// Sets the text content, or clears it with the null value.
pub fn element_host_set_text_content<T: ElementHostBinding>(
    native: Option<&T>,
    host_context: usize,
    is_null: u8,
    value: Utf8Argument<'_>,
) -> (status: u8)
    requires
        native is Some && host_context != 0 && value.nullable_text(is_null) is Some
            ==> native->0.expects(
            ElementCall::SetTextContent(
                host_context,
                value.nullable_text(is_null)->0,
            ),
        ),
    ensures
        native is None || host_context == 0 || value.nullable_text(is_null) is None ==> status == 0,
        native matches Some(native) ==> (host_context != 0 && value.nullable_text(is_null) is Some
            ==> exists|content: Option<&str>, accepted: bool| #[trigger]
            call_ensures(T::set_text_content, (native, host_context, content), accepted)
                && Some(text::optional_text(content)) == value.nullable_text(is_null)
                && status == abi::flag(accepted)),
{
    let Some(native) = native else {
        return 0;
    };
    let enter = |context: usize, content: Option<&str>| -> (accepted: bool)
        requires
            context != 0,
            native.expects(
                ElementCall::SetTextContent(context, text::optional_text(content)),
            ),
        ensures
            call_ensures(T::set_text_content, (native, context, content), accepted),
    {
        native.set_text_content(context, content)
    };
    enter_with_nullable_text(host_context, is_null, value, enter)
}

/// Reads the parent element.
pub fn element_host_get_parent_element<T: ElementHostBinding>(
    native: Option<&T>,
    output: Option<&mut RawInterfaceValue<T>>,
) -> (status: u8)
    requires
        native is Some && output is Some ==> native->0.expects(ElementCall::ParentElement),
    ensures
        status == abi::flag(native is Some && output is Some),
        native is None ==> (output matches Some(output) ==> *final(output) == *output),
        native matches Some(native) ==> (output matches Some(output) ==> exists|
            value: Option<InterfaceHandle<T>>,
        | #[trigger]
            call_ensures(T::parent_element, (native,), value)
                && *final(output) == handles::interface_value(value)),
{
    let Some(native) = native else {
        return 0;
    };
    let Some(output) = output else {
        return 0;
    };
    let value = native.parent_element();
    element_host_write_interface_value(Some(output), value)
}

/// Tells whether there are child nodes.
pub fn element_host_has_child_nodes<T: ElementHostBinding>(
    native: Option<&T>,
    output: Option<&mut u8>,
) -> (status: u8)
    requires
        native is Some && output is Some ==> native->0.expects(ElementCall::HasChildNodes),
    ensures
        status == abi::flag(native is Some && output is Some),
        native is None ==> (output matches Some(output) ==> *final(output) == *output),
        native matches Some(native) ==> (output matches Some(output) ==> exists|
            value: bool,
        | #[trigger]
            call_ensures(T::has_child_nodes, (native,), value)
                && *final(output) == abi::flag(value)),
{
    let Some(native) = native else {
        return 0;
    };
    let Some(output) = output else {
        return 0;
    };
    let value = native.has_child_nodes();
    *output = abi_flag(value);
    1
}

/// Reads the live collection of child elements.
pub fn element_host_get_children<T: ElementHostBinding>(
    native: Option<&T>,
    output: Option<&mut RawHTMLCollectionValue<T::Collection>>,
) -> (status: u8)
    requires
        native is Some && output is Some ==> native->0.expects(ElementCall::Children),
    ensures
        status == abi::flag(native is Some && output is Some),
        native is None ==> (output matches Some(output) ==> *final(output) == *output),
        native matches Some(native) ==> (output matches Some(output) ==> exists|
            value: HTMLCollectionHandle<T::Collection>,
        | #[trigger]
            call_ensures(T::children, (native,), value)
                && *final(output) == handles::collection_value(value)),
{
    let Some(native) = native else {
        return 0;
    };
    let Some(output) = output else {
        return 0;
    };
    let value = native.children();
    *output = raw_html_collection_value(value);
    1
}

/// Collects the descendants that have all of the given classes.
pub fn element_host_get_elements_by_class_name<T: ElementHostBinding>(
    native: Option<&T>,
    class_names: Utf8Argument<'_>,
    output: Option<&mut RawHTMLCollectionValue<T::Collection>>,
) -> (status: u8)
    requires
        native is Some && class_names.text() is Some && output is Some
            ==> native->0.expects(ElementCall::GetElementsByClassName(class_names.text()->0)),
    ensures
        output is None ==> status == 0,
        !(native is Some && class_names.text() is Some)
            ==> status == 0 && (output matches Some(output) ==> *final(output) == *output),
        native is Some && class_names.text() is Some
            ==> (output matches Some(output) ==> exists|
            text: &str,
            result: HTMLCollectionHandle<T::Collection>,
        | #[trigger]
            call_ensures(T::get_elements_by_class_name, (native->0, text), result)
                && Some(text@) == class_names.text()
                && status == 1
                && *final(output) == handles::collection_value(result)),
{
    let Some(native) = native else {
        return 0;
    };
    let Some(output) = output else {
        return 0;
    };
    let Some(text) = element_host_utf8(class_names) else {
        return 0;
    };
    let result = native.get_elements_by_class_name(text);
    *output = raw_html_collection_value(result);
    1
}

/// Collects the descendants with the given qualified name.
pub fn element_host_get_elements_by_tag_name<T: ElementHostBinding>(
    native: Option<&T>,
    qualified_name: Utf8Argument<'_>,
    output: Option<&mut RawHTMLCollectionValue<T::Collection>>,
) -> (status: u8)
    requires
        native is Some && qualified_name.text() is Some && output is Some
            ==> native->0.expects(ElementCall::GetElementsByTagName(qualified_name.text()->0)),
    ensures
        output is None ==> status == 0,
        !(native is Some && qualified_name.text() is Some)
            ==> status == 0 && (output matches Some(output) ==> *final(output) == *output),
        native is Some && qualified_name.text() is Some
            ==> (output matches Some(output) ==> exists|
            text: &str,
            result: HTMLCollectionHandle<T::Collection>,
        | #[trigger]
            call_ensures(T::get_elements_by_tag_name, (native->0, text), result)
                && Some(text@) == qualified_name.text()
                && status == 1
                && *final(output) == handles::collection_value(result)),
{
    let Some(native) = native else {
        return 0;
    };
    let Some(output) = output else {
        return 0;
    };
    let Some(text) = element_host_utf8(qualified_name) else {
        return 0;
    };
    let result = native.get_elements_by_tag_name(text);
    *output = raw_html_collection_value(result);
    1
}

/// Collects the descendants with the given namespace and local name.
pub fn element_host_get_elements_by_tag_name_ns<T: ElementHostBinding>(
    native: Option<&T>,
    namespace_is_null: u8,
    namespace: Utf8Argument<'_>,
    local_name: Utf8Argument<'_>,
    output: Option<&mut RawHTMLCollectionValue<T::Collection>>,
) -> (status: u8)
    requires
        native is Some && namespace.nullable_text(namespace_is_null) is Some
            && local_name.text() is Some && output is Some
            ==> native->0.expects(
            ElementCall::GetElementsByTagNameNs(
                namespace.nullable_text(namespace_is_null)->0,
                local_name.text()->0,
            ),
        ),
    ensures
        output is None ==> status == 0,
        !(native is Some && namespace.nullable_text(namespace_is_null) is Some
            && local_name.text() is Some)
            ==> status == 0 && (output matches Some(output) ==> *final(output) == *output),
        native is Some && namespace.nullable_text(namespace_is_null) is Some
            && local_name.text() is Some
            ==> (output matches Some(output) ==> exists|
            namespace_text: Option<&str>,
            local_text: &str,
            result: HTMLCollectionHandle<T::Collection>,
        | #[trigger]
            call_ensures(
                T::get_elements_by_tag_name_ns,
                (native->0, namespace_text, local_text),
                result,
            )
                && Some(text::optional_text(namespace_text))
                    == namespace.nullable_text(namespace_is_null)
                && Some(local_text@) == local_name.text()
                && status == 1
                && *final(output) == handles::collection_value(result)),
{
    let Some(native) = native else {
        return 0;
    };
    let enter = |namespace: Option<&str>, local_name: &str| -> (result: HTMLCollectionHandle<
        T::Collection,
    >)
        requires
            native.expects(
                ElementCall::GetElementsByTagNameNs(
                    text::optional_text(namespace),
                    local_name@,
                ),
            ),
        ensures
            call_ensures(
                T::get_elements_by_tag_name_ns,
                (native, namespace, local_name),
                result,
            ),
    {
        native.get_elements_by_tag_name_ns(namespace, local_name)
    };
    enter_namespace_query(namespace_is_null, namespace, local_name, output, enter)
}

/// Reads the first child element.
pub fn element_host_get_first_element_child<T: ElementHostBinding>(
    native: Option<&T>,
    output: Option<&mut RawInterfaceValue<T>>,
) -> (status: u8)
    requires
        native is Some && output is Some ==> native->0.expects(ElementCall::FirstElementChild),
    ensures
        status == abi::flag(native is Some && output is Some),
        native is None ==> (output matches Some(output) ==> *final(output) == *output),
        native matches Some(native) ==> (output matches Some(output) ==> exists|
            value: Option<InterfaceHandle<T>>,
        | #[trigger]
            call_ensures(T::first_element_child, (native,), value)
                && *final(output) == handles::interface_value(value)),
{
    let Some(native) = native else {
        return 0;
    };
    let Some(output) = output else {
        return 0;
    };
    let value = native.first_element_child();
    element_host_write_interface_value(Some(output), value)
}

/// Reads the last child element.
pub fn element_host_get_last_element_child<T: ElementHostBinding>(
    native: Option<&T>,
    output: Option<&mut RawInterfaceValue<T>>,
) -> (status: u8)
    requires
        native is Some && output is Some ==> native->0.expects(ElementCall::LastElementChild),
    ensures
        status == abi::flag(native is Some && output is Some),
        native is None ==> (output matches Some(output) ==> *final(output) == *output),
        native matches Some(native) ==> (output matches Some(output) ==> exists|
            value: Option<InterfaceHandle<T>>,
        | #[trigger]
            call_ensures(T::last_element_child, (native,), value)
                && *final(output) == handles::interface_value(value)),
{
    let Some(native) = native else {
        return 0;
    };
    let Some(output) = output else {
        return 0;
    };
    let value = native.last_element_child();
    element_host_write_interface_value(Some(output), value)
}

/// Counts the child elements.
pub fn element_host_get_child_element_count<T: ElementHostBinding>(
    native: Option<&T>,
    output: Option<&mut u32>,
) -> (status: u8)
    requires
        native is Some && output is Some ==> native->0.expects(ElementCall::ChildElementCount),
    ensures
        status == abi::flag(native is Some && output is Some),
        native is None ==> (output matches Some(output) ==> *final(output) == *output),
        native matches Some(native) ==> (output matches Some(output) ==> exists|
            value: u32,
        | #[trigger]
            call_ensures(T::child_element_count, (native,), value)
                && *final(output) == value),
{
    let Some(native) = native else {
        return 0;
    };
    let Some(output) = output else {
        return 0;
    };
    let value = native.child_element_count();
    *output = value;
    1
}

/// Reads the previous sibling element.
pub fn element_host_get_previous_element_sibling<T: ElementHostBinding>(
    native: Option<&T>,
    output: Option<&mut RawInterfaceValue<T>>,
) -> (status: u8)
    requires
        native is Some && output is Some ==> native->0.expects(ElementCall::PreviousElementSibling),
    ensures
        status == abi::flag(native is Some && output is Some),
        native is None ==> (output matches Some(output) ==> *final(output) == *output),
        native matches Some(native) ==> (output matches Some(output) ==> exists|
            value: Option<InterfaceHandle<T>>,
        | #[trigger]
            call_ensures(T::previous_element_sibling, (native,), value)
                && *final(output) == handles::interface_value(value)),
{
    let Some(native) = native else {
        return 0;
    };
    let Some(output) = output else {
        return 0;
    };
    let value = native.previous_element_sibling();
    element_host_write_interface_value(Some(output), value)
}

/// Reads the next sibling element.
pub fn element_host_get_next_element_sibling<T: ElementHostBinding>(
    native: Option<&T>,
    output: Option<&mut RawInterfaceValue<T>>,
) -> (status: u8)
    requires
        native is Some && output is Some ==> native->0.expects(ElementCall::NextElementSibling),
    ensures
        status == abi::flag(native is Some && output is Some),
        native is None ==> (output matches Some(output) ==> *final(output) == *output),
        native matches Some(native) ==> (output matches Some(output) ==> exists|
            value: Option<InterfaceHandle<T>>,
        | #[trigger]
            call_ensures(T::next_element_sibling, (native,), value)
                && *final(output) == handles::interface_value(value)),
{
    let Some(native) = native else {
        return 0;
    };
    let Some(output) = output else {
        return 0;
    };
    let value = native.next_element_sibling();
    element_host_write_interface_value(Some(output), value)
}

/// Removes the element from its parent.
pub fn element_host_remove<T: ElementHostBinding>(
    native: Option<&T>,
    host_context: usize,
) -> (status: u8)
    requires
        native is Some && host_context != 0
            ==> native->0.expects(ElementCall::Remove(host_context)),
    ensures
        native is None || host_context == 0 ==> status == 0,
        native matches Some(native) ==> (host_context != 0 ==> exists|accepted: bool| #[trigger]
            call_ensures(T::remove, (native, host_context), accepted) && status == abi::flag(
                accepted,
            )),
{
    let Some(native) = native else {
        return 0;
    };
    let enter = |context: usize| -> (accepted: bool)
        requires
            context != 0,
            native.expects(ElementCall::Remove(context)),
        ensures
            call_ensures(T::remove, (native, context), accepted),
    {
        native.remove(context)
    };
    enter_with_context(host_context, enter)
}

/// Finds the first descendant the selectors match.
pub fn element_host_query_selector<T: ElementHostBinding>(
    native: Option<&T>,
    host_context: usize,
    selectors: Utf8Argument<'_>,
    output: Option<&mut RawSelectorElementOutcome<T>>,
) -> (status: u8)
    requires
        native is Some && host_context != 0 && selectors.text() is Some && output is Some
            ==> native->0.expects(ElementCall::QuerySelector(host_context, selectors.text()->0)),
    ensures
        output is None ==> status == 0,
        !(native is Some && host_context != 0 && selectors.text() is Some)
            ==> status == 0 && (output matches Some(output) ==> *final(output) == *output),
        native is Some && host_context != 0 && selectors.text() is Some
            ==> (output matches Some(output) ==> exists|
            text: &str,
            result: SelectorElementResult<T>,
        | #[trigger]
            call_ensures(T::query_selector, (native->0, host_context, text), result)
                && Some(text@) == selectors.text()
                && status == 1
                && *final(output) == outcomes::selector_element_outcome(result)),
{
    let Some(native) = native else {
        return 0;
    };
    if host_context == 0 {
        return 0;
    }
    let Some(output) = output else {
        return 0;
    };
    let Some(text) = element_host_utf8(selectors) else {
        return 0;
    };
    let result = native.query_selector(host_context, text);
    *output = raw_selector_element_outcome(result);
    1
}

/// Finds the closest inclusive ancestor the selectors match.
pub fn element_host_closest<T: ElementHostBinding>(
    native: Option<&T>,
    host_context: usize,
    selectors: Utf8Argument<'_>,
    output: Option<&mut RawSelectorElementOutcome<T>>,
) -> (status: u8)
    requires
        native is Some && host_context != 0 && selectors.text() is Some && output is Some
            ==> native->0.expects(ElementCall::Closest(host_context, selectors.text()->0)),
    ensures
        output is None ==> status == 0,
        !(native is Some && host_context != 0 && selectors.text() is Some)
            ==> status == 0 && (output matches Some(output) ==> *final(output) == *output),
        native is Some && host_context != 0 && selectors.text() is Some
            ==> (output matches Some(output) ==> exists|
            text: &str,
            result: SelectorElementResult<T>,
        | #[trigger]
            call_ensures(T::closest, (native->0, host_context, text), result)
                && Some(text@) == selectors.text()
                && status == 1
                && *final(output) == outcomes::selector_element_outcome(result)),
{
    let Some(native) = native else {
        return 0;
    };
    if host_context == 0 {
        return 0;
    }
    let Some(output) = output else {
        return 0;
    };
    let Some(text) = element_host_utf8(selectors) else {
        return 0;
    };
    let result = native.closest(host_context, text);
    *output = raw_selector_element_outcome(result);
    1
}

/// Tests the element against the selectors.
pub fn element_host_matches<T: ElementHostBinding>(
    native: Option<&T>,
    host_context: usize,
    selectors: Utf8Argument<'_>,
    output: Option<&mut RawSelectorBooleanOutcome>,
) -> (status: u8)
    requires
        native is Some && host_context != 0 && selectors.text() is Some && output is Some
            ==> native->0.expects(ElementCall::Matches(host_context, selectors.text()->0)),
    ensures
        output is None ==> status == 0,
        !(native is Some && host_context != 0 && selectors.text() is Some)
            ==> status == 0 && (output matches Some(output) ==> *final(output) == *output),
        native is Some && host_context != 0 && selectors.text() is Some
            ==> (output matches Some(output) ==> exists|
            text: &str,
            result: SelectorBooleanResult,
        | #[trigger]
            call_ensures(T::matches, (native->0, host_context, text), result)
                && Some(text@) == selectors.text()
                && status == 1
                && *final(output) == outcomes::selector_boolean_outcome(result)),
{
    let Some(native) = native else {
        return 0;
    };
    if host_context == 0 {
        return 0;
    }
    let Some(output) = output else {
        return 0;
    };
    let Some(text) = element_host_utf8(selectors) else {
        return 0;
    };
    let result = native.matches(host_context, text);
    *output = raw_selector_boolean_outcome(result);
    1
}

/// Tests the element against the selectors under the legacy name.
pub fn element_host_webkit_matches_selector<T: ElementHostBinding>(
    native: Option<&T>,
    host_context: usize,
    selectors: Utf8Argument<'_>,
    output: Option<&mut RawSelectorBooleanOutcome>,
) -> (status: u8)
    requires
        native is Some && host_context != 0 && selectors.text() is Some && output is Some
            ==> native->0.expects(
            ElementCall::WebkitMatchesSelector(
                host_context,
                selectors.text()->0,
            ),
        ),
    ensures
        output is None ==> status == 0,
        !(native is Some && host_context != 0 && selectors.text() is Some)
            ==> status == 0 && (output matches Some(output) ==> *final(output) == *output),
        native is Some && host_context != 0 && selectors.text() is Some
            ==> (output matches Some(output) ==> exists|
            text: &str,
            result: SelectorBooleanResult,
        | #[trigger]
            call_ensures(T::webkit_matches_selector, (native->0, host_context, text), result)
                && Some(text@) == selectors.text()
                && status == 1
                && *final(output) == outcomes::selector_boolean_outcome(result)),
{
    let Some(native) = native else {
        return 0;
    };
    if host_context == 0 {
        return 0;
    }
    let Some(output) = output else {
        return 0;
    };
    let Some(text) = element_host_utf8(selectors) else {
        return 0;
    };
    let result = native.webkit_matches_selector(host_context, text);
    *output = raw_selector_boolean_outcome(result);
    1
}

/// Lists every descendant the selectors match.
pub fn element_host_query_selector_all<T: ElementHostBinding>(
    native: Option<&T>,
    host_context: usize,
    selectors: Utf8Argument<'_>,
    output: Option<&mut RawSelectorNodeListOutcome<T::NodeList>>,
) -> (status: u8)
    requires
        native is Some && host_context != 0 && selectors.text() is Some && output is Some
            ==> native->0.expects(ElementCall::QuerySelectorAll(host_context, selectors.text()->0)),
    ensures
        output is None ==> status == 0,
        !(native is Some && host_context != 0 && selectors.text() is Some)
            ==> status == 0 && (output matches Some(output) ==> *final(output) == *output),
        native is Some && host_context != 0 && selectors.text() is Some
            ==> (output matches Some(output) ==> exists|
            text: &str,
            result: SelectorNodeListResult<T::NodeList>,
        | #[trigger]
            call_ensures(T::query_selector_all, (native->0, host_context, text), result)
                && Some(text@) == selectors.text()
                && status == 1
                && *final(output) == outcomes::selector_node_list_outcome(result)),
{
    let Some(native) = native else {
        return 0;
    };
    if host_context == 0 {
        return 0;
    }
    let Some(output) = output else {
        return 0;
    };
    let Some(text) = element_host_utf8(selectors) else {
        return 0;
    };
    let result = native.query_selector_all(host_context, text);
    *output = raw_selector_node_list_outcome(result);
    1
}

/// Every `force` argument has one spelling.
pub proof fn force_arguments_have_one_spelling(
    force_is_present: u8,
    force: u8,
    other_is_present: u8,
    other: u8,
)
    requires
        force_argument(force_is_present, force) is Some,
        force_argument(force_is_present, force) == force_argument(other_is_present, other),
    ensures
        force_is_present == other_is_present,
        force == other,
{
}

/// A pair of flags is refused exactly when one of them is no boolean or an
/// absent `force` comes with a value. A pair that is accepted is absent by its
/// first flag, and has the value of its second.
pub proof fn force_arguments_follow_their_flags(force_is_present: u8, force: u8)
    ensures
        force_argument(force_is_present, force) is None <==> force_is_present > 1 || force > 1 || (
        force_is_present == 0 && force == 1),
        force_argument(force_is_present, force) matches Some(forced) ==> (forced is None
            <==> force_is_present == 0),
        force_argument(force_is_present, force) matches Some(Some(forced)) ==> (forced <==> force
            == 1),
{
}

} // verus!
