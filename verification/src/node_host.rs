//! The callbacks behind Node's structural mutation methods.
//!
//! The receiver, the other nodes and the output storage arrive as the engine
//! passed them, where an absent one stands for a null pointer and a context of
//! zero for a null context. A mutation that reaches the host always answers
//! one and hands over the host's whole result; a malformed call answers zero,
//! leaves the output as it was, and does not enter the host. Each decision
//! stands in a function that is given the mutation as a closure it can make only
//! once.

use crate::bindings;
use crate::bindings::NodeHostBinding;
use crate::calls::NodeCall;
use crate::outcomes::{
    element_host_write_node_mutation_outcome, NodeMutationResult, RawNodeMutationOutcome,
};
use vstd::prelude::*;

verus! {

/// The flag and the pointer of a nullable child agree: zero comes with a child
/// and one comes without.
pub open spec fn child_is_canonical<T>(child_is_null: u8, child: Option<&T>) -> bool {
    ||| child_is_null == 0 && child is Some
    ||| child_is_null == 1 && child is None
}

/// Decides an insertion: the host is entered once, with the nodes that were
/// lent, or not at all.
pub fn enter_insert_before<
    'a,
    T,
    F: FnOnce(usize, &'a T, Option<&'a T>) -> NodeMutationResult<T>,
>(
    host_context: usize,
    node_native: Option<&'a T>,
    child_is_null: u8,
    child_native: Option<&'a T>,
    output: Option<&mut RawNodeMutationOutcome<T>>,
    enter: F,
) -> (status: u8)
    requires
        host_context != 0 && node_native is Some && output is Some
            && child_is_canonical(child_is_null, child_native)
            ==> call_requires(enter, (host_context, node_native->0, child_native)),
    ensures
        output is None ==> status == 0,
        !(host_context != 0 && node_native is Some
            && child_is_canonical(child_is_null, child_native))
            ==> status == 0 && (output matches Some(output) ==> *final(output) == *output),
        host_context != 0 && node_native is Some
            && child_is_canonical(child_is_null, child_native)
            ==> (output matches Some(output) ==> exists|result: NodeMutationResult<T>| #[trigger]
            call_ensures(enter, (host_context, node_native->0, child_native), result)
                && status == 1
                && final(output).carries(result@)),
{
    let Some(node_native) = node_native else {
        return 0;
    };
    if host_context == 0 || child_is_null > 1 || (child_is_null == 0 && child_native.is_none()) || (
    child_is_null == 1 && child_native.is_some()) {
        return 0;
    }
    let Some(output) = output else {
        return 0;
    };
    let result = enter(host_context, node_native, child_native);
    element_host_write_node_mutation_outcome(Some(output), result)
}

/// Decides a mutation with one node: the host is entered once, with the node
/// that was lent, or not at all.
pub fn enter_with_node<'a, T, F: FnOnce(usize, &'a T) -> NodeMutationResult<T>>(
    host_context: usize,
    node_native: Option<&'a T>,
    output: Option<&mut RawNodeMutationOutcome<T>>,
    enter: F,
) -> (status: u8)
    requires
        host_context != 0 && node_native is Some && output is Some
            ==> call_requires(enter, (host_context, node_native->0)),
    ensures
        output is None ==> status == 0,
        !(host_context != 0 && node_native is Some)
            ==> status == 0 && (output matches Some(output) ==> *final(output) == *output),
        host_context != 0 && node_native is Some
            ==> (output matches Some(output) ==> exists|result: NodeMutationResult<T>| #[trigger]
            call_ensures(enter, (host_context, node_native->0), result)
                && status == 1
                && final(output).carries(result@)),
{
    let Some(node_native) = node_native else {
        return 0;
    };
    if host_context == 0 {
        return 0;
    }
    let Some(output) = output else {
        return 0;
    };
    let result = enter(host_context, node_native);
    element_host_write_node_mutation_outcome(Some(output), result)
}

/// Decides a replacement: the host is entered once, with the nodes that were
/// lent, or not at all.
pub fn enter_replace_child<'a, T, F: FnOnce(usize, &'a T, &'a T) -> NodeMutationResult<T>>(
    host_context: usize,
    node_native: Option<&'a T>,
    child_native: Option<&'a T>,
    output: Option<&mut RawNodeMutationOutcome<T>>,
    enter: F,
) -> (status: u8)
    requires
        host_context != 0 && node_native is Some && child_native is Some && output is Some
            ==> call_requires(enter, (host_context, node_native->0, child_native->0)),
    ensures
        output is None ==> status == 0,
        !(host_context != 0 && node_native is Some && child_native is Some)
            ==> status == 0 && (output matches Some(output) ==> *final(output) == *output),
        host_context != 0 && node_native is Some && child_native is Some
            ==> (output matches Some(output) ==> exists|result: NodeMutationResult<T>| #[trigger]
            call_ensures(enter, (host_context, node_native->0, child_native->0), result)
                && status == 1
                && final(output).carries(result@)),
{
    let Some(node_native) = node_native else {
        return 0;
    };
    let Some(child_native) = child_native else {
        return 0;
    };
    if host_context == 0 {
        return 0;
    }
    let Some(output) = output else {
        return 0;
    };
    let result = enter(host_context, node_native, child_native);
    element_host_write_node_mutation_outcome(Some(output), result)
}

/// Inserts `node_native` before a child, or at the end for the null child.
pub fn element_host_insert_before<T: NodeHostBinding>(
    native: Option<&T>,
    host_context: usize,
    node_native: Option<&T>,
    child_is_null: u8,
    child_native: Option<&T>,
    output: Option<&mut RawNodeMutationOutcome<T>>,
) -> (status: u8)
    requires
        native is Some && host_context != 0 && node_native is Some && output is Some
            && child_is_canonical(child_is_null, child_native)
            ==> native->0.expects_mutation(
            NodeCall::InsertBefore(host_context, *node_native->0, bindings::lent(child_native)),
        ),
    ensures
        output is None ==> status == 0,
        !(native is Some && host_context != 0 && node_native is Some
            && child_is_canonical(child_is_null, child_native))
            ==> status == 0 && (output matches Some(output) ==> *final(output) == *output),
        native is Some && host_context != 0 && node_native is Some
            && child_is_canonical(child_is_null, child_native)
            ==> (output matches Some(output) ==> exists|result: NodeMutationResult<T>| #[trigger]
            call_ensures(
                T::insert_before,
                (native->0, host_context, node_native->0, child_native),
                result,
            )
                && status == 1
                && final(output).carries(result@)),
{
    let Some(native) = native else {
        return 0;
    };
    let enter = |context: usize, node: &T, child: Option<&T>| -> (result: NodeMutationResult<T>)
        requires
            context != 0,
            native.expects_mutation(NodeCall::InsertBefore(context, *node, bindings::lent(child))),
        ensures
            call_ensures(T::insert_before, (native, context, node, child), result),
    {
        native.insert_before(context, node, child)
    };
    enter_insert_before(host_context, node_native, child_is_null, child_native, output, enter)
}

/// Appends `node_native` to the children.
pub fn element_host_append_child<T: NodeHostBinding>(
    native: Option<&T>,
    host_context: usize,
    node_native: Option<&T>,
    output: Option<&mut RawNodeMutationOutcome<T>>,
) -> (status: u8)
    requires
        native is Some && host_context != 0 && node_native is Some && output is Some
            ==> native->0.expects_mutation(NodeCall::AppendChild(host_context, *node_native->0)),
    ensures
        output is None ==> status == 0,
        !(native is Some && host_context != 0 && node_native is Some)
            ==> status == 0 && (output matches Some(output) ==> *final(output) == *output),
        native is Some && host_context != 0 && node_native is Some
            ==> (output matches Some(output) ==> exists|result: NodeMutationResult<T>| #[trigger]
            call_ensures(T::append_child, (native->0, host_context, node_native->0), result)
                && status == 1
                && final(output).carries(result@)),
{
    let Some(native) = native else {
        return 0;
    };
    let enter = |context: usize, node: &T| -> (result: NodeMutationResult<T>)
        requires
            context != 0,
            native.expects_mutation(NodeCall::AppendChild(context, *node)),
        ensures
            call_ensures(T::append_child, (native, context, node), result),
    {
        native.append_child(context, node)
    };
    enter_with_node(host_context, node_native, output, enter)
}

/// Puts `node_native` in the place of `child_native`.
pub fn element_host_replace_child<T: NodeHostBinding>(
    native: Option<&T>,
    host_context: usize,
    node_native: Option<&T>,
    child_native: Option<&T>,
    output: Option<&mut RawNodeMutationOutcome<T>>,
) -> (status: u8)
    requires
        native is Some && host_context != 0 && node_native is Some && child_native is Some
            && output is Some
            ==> native->0.expects_mutation(
            NodeCall::ReplaceChild(host_context, *node_native->0, *child_native->0),
        ),
    ensures
        output is None ==> status == 0,
        !(native is Some && host_context != 0 && node_native is Some && child_native is Some)
            ==> status == 0 && (output matches Some(output) ==> *final(output) == *output),
        native is Some && host_context != 0 && node_native is Some && child_native is Some
            ==> (output matches Some(output) ==> exists|result: NodeMutationResult<T>| #[trigger]
            call_ensures(
                T::replace_child,
                (native->0, host_context, node_native->0, child_native->0),
                result,
            )
                && status == 1
                && final(output).carries(result@)),
{
    let Some(native) = native else {
        return 0;
    };
    let enter = |context: usize, node: &T, child: &T| -> (result: NodeMutationResult<T>)
        requires
            context != 0,
            native.expects_mutation(NodeCall::ReplaceChild(context, *node, *child)),
        ensures
            call_ensures(T::replace_child, (native, context, node, child), result),
    {
        native.replace_child(context, node, child)
    };
    enter_replace_child(host_context, node_native, child_native, output, enter)
}

/// Removes `child_native` from the children.
pub fn element_host_remove_child<T: NodeHostBinding>(
    native: Option<&T>,
    host_context: usize,
    child_native: Option<&T>,
    output: Option<&mut RawNodeMutationOutcome<T>>,
) -> (status: u8)
    requires
        native is Some && host_context != 0 && child_native is Some && output is Some
            ==> native->0.expects_mutation(NodeCall::RemoveChild(host_context, *child_native->0)),
    ensures
        output is None ==> status == 0,
        !(native is Some && host_context != 0 && child_native is Some)
            ==> status == 0 && (output matches Some(output) ==> *final(output) == *output),
        native is Some && host_context != 0 && child_native is Some
            ==> (output matches Some(output) ==> exists|result: NodeMutationResult<T>| #[trigger]
            call_ensures(T::remove_child, (native->0, host_context, child_native->0), result)
                && status == 1
                && final(output).carries(result@)),
{
    let Some(native) = native else {
        return 0;
    };
    let enter = |context: usize, child: &T| -> (result: NodeMutationResult<T>)
        requires
            context != 0,
            native.expects_mutation(NodeCall::RemoveChild(context, *child)),
        ensures
            call_ensures(T::remove_child, (native, context, child), result),
    {
        native.remove_child(context, child)
    };
    enter_with_node(host_context, child_native, output, enter)
}

/// A nullable child is canonical when its flag is a boolean and says whether
/// the pointer is null.
pub proof fn canonical_children_agree_with_their_flag<T>(child_is_null: u8, child: Option<&T>)
    ensures
        child_is_canonical(child_is_null, child) <==> child_is_null <= 1 && (child_is_null == 1
            <==> child is None),
{
}

} // verus!
