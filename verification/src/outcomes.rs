//! The result spaces of host operations that can fail, and their ABI spelling.
//!
//! A DOM failure stays typed data until the engine creates a realm-local
//! exception from it, so no exception object of another engine ever crosses.

use crate::abi;
use crate::abi::{
    abi_flag, ATTRIBUTE_MUTATION_DOM_EXCEPTION, ATTRIBUTE_MUTATION_EXCEPTION_INVALID_CHARACTER,
    ATTRIBUTE_MUTATION_EXCEPTION_NONE, ATTRIBUTE_MUTATION_HOST_FAILURE,
    ATTRIBUTE_MUTATION_RETURNED, NODE_MUTATION_DOM_EXCEPTION,
    NODE_MUTATION_EXCEPTION_HIERARCHY_REQUEST, NODE_MUTATION_EXCEPTION_NONE,
    NODE_MUTATION_EXCEPTION_NOT_FOUND, NODE_MUTATION_HOST_FAILURE, NODE_MUTATION_RETURNED,
    SELECTOR_HOST_FAILURE, SELECTOR_RETURNED, SELECTOR_SYNTAX_ERROR,
};
use crate::handles;
use crate::handles::{
    raw_interface_value, raw_null_interface_value, raw_optional_interface_value, InterfaceHandle,
    NodeListHandle, RawInterfaceValue,
};
use crate::transfer;
use crate::transfer::{raw_empty_owned_utf8, raw_owned_utf8, DropOwner, OwnedUtf8};
use vstd::prelude::*;
use vstd::utf8::*;

verus! {

/// The complete native result space for a selector operation returning
/// `Element?`.
///
/// A selector that does not parse is a `SyntaxError`.
pub enum SelectorElementResult<T> {
    Match(Option<InterfaceHandle<T>>),
    SyntaxError,
    HostFailure,
}

/// The complete native result space for a selector operation returning
/// boolean.
///
/// Syntax failures remain typed data until V8 creates the realm-local
/// `DOMException`; internal host failures become a V8 `TypeError`.
#[derive(Clone, Copy, Debug, Eq, PartialEq, Structural)]
pub enum SelectorBooleanResult {
    Match(bool),
    SyntaxError,
    HostFailure,
}

/// The complete result space for `ParentNode.querySelectorAll`.
pub enum SelectorNodeListResult<L> {
    Match(NodeListHandle<L>),
    SyntaxError,
    HostFailure,
}

/// A DOMException kind produced by one of Node's structural mutation methods.
#[derive(Clone, Copy, Debug, Eq, PartialEq, Structural)]
pub enum NodeMutationException {
    HierarchyRequest,
    NotFound,
}

/// The complete native result space for a mutation on any installed Node kind.
pub enum NodeMutationResult<T> {
    Returned(InterfaceHandle<T>),
    DomException { kind: NodeMutationException, message: String },
    HostFailure,
}

/// The only DOMException currently reachable from `toggleAttribute`.
#[derive(Clone, Copy, Debug, Eq, PartialEq, Structural)]
pub enum AttributeMutationException {
    InvalidCharacter,
}

/// The complete result space for `Element.toggleAttribute`.
pub enum ToggleAttributeResult {
    Returned(bool),
    DomException { kind: AttributeMutationException, message: String },
    HostFailure,
}

/// What a node mutation result says, with its message as text.
pub enum NodeMutationView<T> {
    Returned(InterfaceHandle<T>),
    DomException { kind: NodeMutationException, message: Seq<char> },
    HostFailure,
}

impl<T> View for NodeMutationResult<T> {
    type V = NodeMutationView<T>;

    open spec fn view(&self) -> NodeMutationView<T> {
        match *self {
            NodeMutationResult::Returned(handle) => NodeMutationView::Returned(handle),
            NodeMutationResult::DomException { kind, message } => NodeMutationView::DomException {
                kind,
                message: message@,
            },
            NodeMutationResult::HostFailure => NodeMutationView::HostFailure,
        }
    }
}

/// What a toggle result says, with its message as text.
pub enum ToggleAttributeView {
    Returned(bool),
    DomException { kind: AttributeMutationException, message: Seq<char> },
    HostFailure,
}

impl View for ToggleAttributeResult {
    type V = ToggleAttributeView;

    open spec fn view(&self) -> ToggleAttributeView {
        match *self {
            ToggleAttributeResult::Returned(value) => ToggleAttributeView::Returned(value),
            ToggleAttributeResult::DomException {
                kind,
                message,
            } => ToggleAttributeView::DomException { kind, message: message@ },
            ToggleAttributeResult::HostFailure => ToggleAttributeView::HostFailure,
        }
    }
}

/// The ABI spelling of a `SelectorElementResult`.
pub struct RawSelectorElementOutcome<T> {
    pub status: u32,
    pub value: RawInterfaceValue<T>,
}

/// The ABI spelling of a `SelectorBooleanResult`.
#[derive(Clone, Copy, Debug, Eq, PartialEq, Structural)]
pub struct RawSelectorBooleanOutcome {
    pub status: u32,
    pub value: u8,
}

/// The ABI spelling of a `SelectorNodeListResult`.
pub struct RawSelectorNodeListOutcome<L> {
    pub status: u32,
    pub native: Option<Box<L>>,
}

/// The ABI spelling of a `NodeMutationResult`.
pub struct RawNodeMutationOutcome<T> {
    pub status: u32,
    pub exception_kind: u32,
    pub exception_message: OwnedUtf8,
    pub value: RawInterfaceValue<T>,
}

/// The ABI spelling of a `ToggleAttributeResult`.
pub struct RawToggleAttributeOutcome {
    pub status: u32,
    pub exception_kind: u32,
    pub exception_message: OwnedUtf8,
    pub value: u8,
}

/// The ABI spelling of a selector result: only a match carries an element.
pub open spec fn selector_element_outcome<T>(
    result: SelectorElementResult<T>,
) -> RawSelectorElementOutcome<T> {
    match result {
        SelectorElementResult::Match(handle) => RawSelectorElementOutcome {
            status: SELECTOR_RETURNED,
            value: handles::interface_value(handle),
        },
        SelectorElementResult::SyntaxError => RawSelectorElementOutcome {
            status: SELECTOR_SYNTAX_ERROR,
            value: handles::interface_value(None),
        },
        SelectorElementResult::HostFailure => RawSelectorElementOutcome {
            status: SELECTOR_HOST_FAILURE,
            value: handles::interface_value(None),
        },
    }
}

/// The ABI spelling of a selector test: a failure always carries zero.
pub open spec fn selector_boolean_outcome(
    result: SelectorBooleanResult,
) -> RawSelectorBooleanOutcome {
    match result {
        SelectorBooleanResult::Match(value) => RawSelectorBooleanOutcome {
            status: SELECTOR_RETURNED,
            value: abi::flag(value),
        },
        SelectorBooleanResult::SyntaxError => RawSelectorBooleanOutcome {
            status: SELECTOR_SYNTAX_ERROR,
            value: 0,
        },
        SelectorBooleanResult::HostFailure => RawSelectorBooleanOutcome {
            status: SELECTOR_HOST_FAILURE,
            value: 0,
        },
    }
}

/// The ABI spelling of a selector list: a match carries the list host and a
/// failure carries none.
pub open spec fn selector_node_list_outcome<L>(
    result: SelectorNodeListResult<L>,
) -> RawSelectorNodeListOutcome<L> {
    match result {
        SelectorNodeListResult::Match(handle) => RawSelectorNodeListOutcome {
            status: SELECTOR_RETURNED,
            native: Some(handle.native),
        },
        SelectorNodeListResult::SyntaxError => RawSelectorNodeListOutcome {
            status: SELECTOR_SYNTAX_ERROR,
            native: None,
        },
        SelectorNodeListResult::HostFailure => RawSelectorNodeListOutcome {
            status: SELECTOR_HOST_FAILURE,
            native: None,
        },
    }
}

/// The ABI spelling of an exception kind.
pub open spec fn node_mutation_exception_kind(kind: NodeMutationException) -> u32 {
    match kind {
        NodeMutationException::HierarchyRequest => NODE_MUTATION_EXCEPTION_HIERARCHY_REQUEST,
        NodeMutationException::NotFound => NODE_MUTATION_EXCEPTION_NOT_FOUND,
    }
}

/// The ABI spelling of an exception kind.
pub open spec fn attribute_mutation_exception_kind(kind: AttributeMutationException) -> u32 {
    match kind {
        AttributeMutationException::InvalidCharacter => {
            ATTRIBUTE_MUTATION_EXCEPTION_INVALID_CHARACTER
        },
    }
}

impl<T> RawSelectorElementOutcome<T> {
    /// The result a reader recovers; `None` where the outcome is malformed.
    pub open spec fn reading(self) -> Option<SelectorElementResult<T>> {
        let value = self.value.reading();
        if self.status == SELECTOR_RETURNED && value is Some {
            Some(SelectorElementResult::Match(value->0))
        } else if self.status == SELECTOR_SYNTAX_ERROR && value == Some(
            None::<InterfaceHandle<T>>,
        ) {
            Some(SelectorElementResult::SyntaxError)
        } else if self.status == SELECTOR_HOST_FAILURE && value == Some(
            None::<InterfaceHandle<T>>,
        ) {
            Some(SelectorElementResult::HostFailure)
        } else {
            None
        }
    }
}

impl RawSelectorBooleanOutcome {
    /// The result a reader recovers; `None` where the outcome is malformed.
    pub open spec fn reading(self) -> Option<SelectorBooleanResult> {
        if self.status == SELECTOR_RETURNED && self.value <= 1 {
            Some(SelectorBooleanResult::Match(self.value == 1))
        } else if self.status == SELECTOR_SYNTAX_ERROR && self.value == 0 {
            Some(SelectorBooleanResult::SyntaxError)
        } else if self.status == SELECTOR_HOST_FAILURE && self.value == 0 {
            Some(SelectorBooleanResult::HostFailure)
        } else {
            None
        }
    }
}

impl<L> RawSelectorNodeListOutcome<L> {
    /// The result a reader recovers; `None` where the outcome is malformed.
    pub open spec fn reading(self) -> Option<SelectorNodeListResult<L>> {
        match self.native {
            Some(native) => if self.status == SELECTOR_RETURNED {
                Some(SelectorNodeListResult::Match(NodeListHandle { native }))
            } else {
                None
            },
            None => if self.status == SELECTOR_SYNTAX_ERROR {
                Some(SelectorNodeListResult::SyntaxError)
            } else if self.status == SELECTOR_HOST_FAILURE {
                Some(SelectorNodeListResult::HostFailure)
            } else {
                None
            },
        }
    }
}

impl<T> RawNodeMutationOutcome<T> {
    /// The canonical spelling of `result`. Only an exception carries a kind
    /// and a message, and only a return carries a value.
    pub open spec fn carries(self, result: NodeMutationView<T>) -> bool {
        match result {
            NodeMutationView::Returned(handle) => {
                &&& self.status == NODE_MUTATION_RETURNED
                &&& self.exception_kind == NODE_MUTATION_EXCEPTION_NONE
                &&& self.exception_message.is_empty_transfer()
                &&& self.value == handles::interface_value(Some(handle))
            },
            NodeMutationView::DomException { kind, message } => {
                &&& self.status == NODE_MUTATION_DOM_EXCEPTION
                &&& self.exception_kind == node_mutation_exception_kind(kind)
                &&& self.exception_message.carries(message)
                &&& self.value == handles::interface_value::<T>(None)
            },
            NodeMutationView::HostFailure => {
                &&& self.status == NODE_MUTATION_HOST_FAILURE
                &&& self.exception_kind == NODE_MUTATION_EXCEPTION_NONE
                &&& self.exception_message.is_empty_transfer()
                &&& self.value == handles::interface_value::<T>(None)
            },
        }
    }

    /// The result a reader recovers; `None` where the outcome is malformed.
    pub open spec fn reading(self) -> Option<NodeMutationView<T>> {
        let value = self.value.reading();
        let message = self.exception_message.text();
        let silent = self.exception_kind == NODE_MUTATION_EXCEPTION_NONE
            && self.exception_message.is_empty_transfer();
        let kind = if self.exception_kind == NODE_MUTATION_EXCEPTION_HIERARCHY_REQUEST {
            Some(NodeMutationException::HierarchyRequest)
        } else if self.exception_kind == NODE_MUTATION_EXCEPTION_NOT_FOUND {
            Some(NodeMutationException::NotFound)
        } else {
            None
        };
        if self.status == NODE_MUTATION_RETURNED && silent && value is Some && value->0 is Some {
            Some(NodeMutationView::Returned(value->0->0))
        } else if self.status == NODE_MUTATION_DOM_EXCEPTION && kind is Some && message is Some
            && value == Some(None::<InterfaceHandle<T>>) {
            Some(NodeMutationView::DomException { kind: kind->0, message: message->0 })
        } else if self.status == NODE_MUTATION_HOST_FAILURE && silent && value == Some(
            None::<InterfaceHandle<T>>,
        ) {
            Some(NodeMutationView::HostFailure)
        } else {
            None
        }
    }
}

impl RawToggleAttributeOutcome {
    /// The canonical spelling of `result`. Only an exception carries a kind
    /// and a message, and everything but a return carries the value zero.
    pub open spec fn carries(self, result: ToggleAttributeView) -> bool {
        match result {
            ToggleAttributeView::Returned(value) => {
                &&& self.status == ATTRIBUTE_MUTATION_RETURNED
                &&& self.exception_kind == ATTRIBUTE_MUTATION_EXCEPTION_NONE
                &&& self.exception_message.is_empty_transfer()
                &&& self.value == abi::flag(value)
            },
            ToggleAttributeView::DomException { kind, message } => {
                &&& self.status == ATTRIBUTE_MUTATION_DOM_EXCEPTION
                &&& self.exception_kind == attribute_mutation_exception_kind(kind)
                &&& self.exception_message.carries(message)
                &&& self.value == 0
            },
            ToggleAttributeView::HostFailure => {
                &&& self.status == ATTRIBUTE_MUTATION_HOST_FAILURE
                &&& self.exception_kind == ATTRIBUTE_MUTATION_EXCEPTION_NONE
                &&& self.exception_message.is_empty_transfer()
                &&& self.value == 0
            },
        }
    }

    /// The result a reader recovers; `None` where the outcome is malformed.
    pub open spec fn reading(self) -> Option<ToggleAttributeView> {
        let message = self.exception_message.text();
        let silent = self.exception_kind == ATTRIBUTE_MUTATION_EXCEPTION_NONE
            && self.exception_message.is_empty_transfer();
        if self.status == ATTRIBUTE_MUTATION_RETURNED && silent && self.value <= 1 {
            Some(ToggleAttributeView::Returned(self.value == 1))
        } else if self.status == ATTRIBUTE_MUTATION_DOM_EXCEPTION && self.exception_kind
            == ATTRIBUTE_MUTATION_EXCEPTION_INVALID_CHARACTER && message is Some && self.value
            == 0 {
            Some(
                ToggleAttributeView::DomException {
                    kind: AttributeMutationException::InvalidCharacter,
                    message: message->0,
                },
            )
        } else if self.status == ATTRIBUTE_MUTATION_HOST_FAILURE && silent && self.value == 0 {
            Some(ToggleAttributeView::HostFailure)
        } else {
            None
        }
    }
}

pub fn raw_selector_element_outcome<T>(result: SelectorElementResult<T>) -> (outcome:
    RawSelectorElementOutcome<T>)
    ensures
        outcome == selector_element_outcome(result),
{
    let (status, handle): (u32, Option<InterfaceHandle<T>>) = match result {
        SelectorElementResult::Match(handle) => (SELECTOR_RETURNED, handle),
        SelectorElementResult::SyntaxError => (SELECTOR_SYNTAX_ERROR, None),
        SelectorElementResult::HostFailure => (SELECTOR_HOST_FAILURE, None),
    };
    RawSelectorElementOutcome { status, value: raw_optional_interface_value(handle) }
}

pub fn raw_selector_boolean_outcome(result: SelectorBooleanResult) -> (outcome:
    RawSelectorBooleanOutcome)
    ensures
        outcome == selector_boolean_outcome(result),
{
    match result {
        SelectorBooleanResult::Match(value) => RawSelectorBooleanOutcome {
            status: SELECTOR_RETURNED,
            value: abi_flag(value),
        },
        SelectorBooleanResult::SyntaxError => RawSelectorBooleanOutcome {
            status: SELECTOR_SYNTAX_ERROR,
            value: 0,
        },
        SelectorBooleanResult::HostFailure => RawSelectorBooleanOutcome {
            status: SELECTOR_HOST_FAILURE,
            value: 0,
        },
    }
}

pub fn raw_selector_node_list_outcome<L>(result: SelectorNodeListResult<L>) -> (outcome:
    RawSelectorNodeListOutcome<L>)
    ensures
        outcome == selector_node_list_outcome(result),
{
    match result {
        SelectorNodeListResult::Match(handle) => RawSelectorNodeListOutcome {
            status: SELECTOR_RETURNED,
            native: Some(handle.native),
        },
        SelectorNodeListResult::SyntaxError => RawSelectorNodeListOutcome {
            status: SELECTOR_SYNTAX_ERROR,
            native: None,
        },
        SelectorNodeListResult::HostFailure => RawSelectorNodeListOutcome {
            status: SELECTOR_HOST_FAILURE,
            native: None,
        },
    }
}

pub fn raw_node_mutation_outcome<T>(result: NodeMutationResult<T>) -> (outcome:
    RawNodeMutationOutcome<T>)
    ensures
        outcome.carries(result@),
{
    match result {
        NodeMutationResult::Returned(handle) => RawNodeMutationOutcome {
            status: NODE_MUTATION_RETURNED,
            exception_kind: NODE_MUTATION_EXCEPTION_NONE,
            exception_message: raw_empty_owned_utf8(),
            value: raw_interface_value(handle),
        },
        NodeMutationResult::DomException { kind, message } => RawNodeMutationOutcome {
            status: NODE_MUTATION_DOM_EXCEPTION,
            exception_kind: match kind {
                NodeMutationException::HierarchyRequest => {
                    NODE_MUTATION_EXCEPTION_HIERARCHY_REQUEST
                },
                NodeMutationException::NotFound => NODE_MUTATION_EXCEPTION_NOT_FOUND,
            },
            exception_message: raw_owned_utf8(message),
            value: raw_null_interface_value(),
        },
        NodeMutationResult::HostFailure => RawNodeMutationOutcome {
            status: NODE_MUTATION_HOST_FAILURE,
            exception_kind: NODE_MUTATION_EXCEPTION_NONE,
            exception_message: raw_empty_owned_utf8(),
            value: raw_null_interface_value(),
        },
    }
}

pub fn raw_toggle_attribute_outcome(result: ToggleAttributeResult) -> (outcome:
    RawToggleAttributeOutcome)
    ensures
        outcome.carries(result@),
{
    match result {
        ToggleAttributeResult::Returned(value) => RawToggleAttributeOutcome {
            status: ATTRIBUTE_MUTATION_RETURNED,
            exception_kind: ATTRIBUTE_MUTATION_EXCEPTION_NONE,
            exception_message: raw_empty_owned_utf8(),
            value: abi_flag(value),
        },
        ToggleAttributeResult::DomException { kind, message } => RawToggleAttributeOutcome {
            status: ATTRIBUTE_MUTATION_DOM_EXCEPTION,
            exception_kind: match kind {
                AttributeMutationException::InvalidCharacter => {
                    ATTRIBUTE_MUTATION_EXCEPTION_INVALID_CHARACTER
                },
            },
            exception_message: raw_owned_utf8(message),
            value: 0,
        },
        ToggleAttributeResult::HostFailure => RawToggleAttributeOutcome {
            status: ATTRIBUTE_MUTATION_HOST_FAILURE,
            exception_kind: ATTRIBUTE_MUTATION_EXCEPTION_NONE,
            exception_message: raw_empty_owned_utf8(),
            value: 0,
        },
    }
}

/// Transfers the whole result of a mutation into the caller's storage, where
/// there is any.
pub fn element_host_write_node_mutation_outcome<T>(
    output: Option<&mut RawNodeMutationOutcome<T>>,
    result: NodeMutationResult<T>,
) -> (status: u8)
    ensures
        status == abi::flag(output is Some),
        output matches Some(output) ==> final(output).carries(result@),
{
    match output {
        None => 0,
        Some(output) => {
            *output = raw_node_mutation_outcome(result);
            1
        },
    }
}

/// A reader of a selector outcome recovers the result that was spelled: a
/// match with its element or null, a syntax error, or a host failure. No other
/// spelling reads as that result.
pub proof fn selector_element_outcomes_read_back<T>(
    outcome: RawSelectorElementOutcome<T>,
    result: SelectorElementResult<T>,
)
    requires
        result matches SelectorElementResult::Match(Some(handle)) ==> handle.well_formed(),
    ensures
        outcome.reading() == Some(result) <==> outcome == selector_element_outcome(result),
{
}

/// A reader of a selector test recovers the result that was spelled, and no
/// other spelling reads as that result.
pub proof fn selector_boolean_outcomes_read_back(
    outcome: RawSelectorBooleanOutcome,
    result: SelectorBooleanResult,
)
    ensures
        outcome.reading() == Some(result) <==> outcome == selector_boolean_outcome(result),
{
}

/// A reader of a selector list recovers the result that was spelled, and no
/// other spelling reads as that result.
pub proof fn selector_node_list_outcomes_read_back<L>(
    outcome: RawSelectorNodeListOutcome<L>,
    result: SelectorNodeListResult<L>,
)
    ensures
        outcome.reading() == Some(result) <==> outcome == selector_node_list_outcome(result),
{
}

/// A reader of a mutation outcome recovers the result that was spelled: the
/// returned node, the exception with its kind and message, or a host failure.
pub proof fn node_mutation_outcomes_read_back<T>(
    outcome: RawNodeMutationOutcome<T>,
    result: NodeMutationView<T>,
)
    requires
        outcome.carries(result),
        result matches NodeMutationView::Returned(handle) ==> handle.well_formed(),
    ensures
        outcome.reading() == Some(result),
{
    if let NodeMutationView::DomException { kind, message } = result {
        transfer::transferred_text_reads_back(outcome.exception_message, message);
    }
}

/// A reader of a toggle outcome recovers the result that was spelled.
pub proof fn toggle_attribute_outcomes_read_back(
    outcome: RawToggleAttributeOutcome,
    result: ToggleAttributeView,
)
    requires
        outcome.carries(result),
    ensures
        outcome.reading() == Some(result),
{
    if let ToggleAttributeView::DomException { kind, message } = result {
        transfer::transferred_text_reads_back(outcome.exception_message, message);
    }
}

/// A mutation result is seen as it is: the same variant, the same node, the same
/// kind, and its message as text.
pub proof fn mutation_views_keep_the_result<T>(result: NodeMutationResult<T>)
    ensures
        result matches NodeMutationResult::Returned(handle) ==> (
        result@ matches NodeMutationView::Returned(seen) && seen == handle),
        result matches NodeMutationResult::DomException { kind, message } ==> (
        result@ matches NodeMutationView::DomException { kind: seen, message: text } && seen == kind
            && text == message@),
        result is HostFailure <==> result@ is HostFailure,
{
}

/// A toggle result is seen as it is: the same variant, the same boolean, the same
/// kind, and its message as text.
pub proof fn toggle_views_keep_the_result(result: ToggleAttributeResult)
    ensures
        result matches ToggleAttributeResult::Returned(value) ==> (
        result@ matches ToggleAttributeView::Returned(seen) && seen == value),
        result matches ToggleAttributeResult::DomException { kind, message } ==> (
        result@ matches ToggleAttributeView::DomException { kind: seen, message: text } && seen
            == kind && text == message@),
        result is HostFailure <==> result@ is HostFailure,
{
}

/// A selector outcome says by its status what became of the query: zero is a
/// match, one a syntax error and two a host failure. It carries the element that
/// matched, field by field, and null in every other case.
pub proof fn selector_element_statuses_name_the_result<T>(result: SelectorElementResult<T>)
    ensures
        selector_element_outcome(result).status == 0 <==> result is Match,
        selector_element_outcome(result).status == 1 <==> result is SyntaxError,
        selector_element_outcome(result).status == 2 <==> result is HostFailure,
        result matches SelectorElementResult::Match(Some(handle)) ==> {
            let value = selector_element_outcome(result).value;
            &&& value.kind == handle.kind
            &&& value.key == handle.key
            &&& value.native == Some(handle.native)
        },
        !(result matches SelectorElementResult::Match(Some(_))) ==> {
            let value = selector_element_outcome(result).value;
            &&& value.kind == 0
            &&& value.key == 0
            &&& value.native is None
        },
{
}

/// A selector test says by its status what became of it, and carries a one
/// exactly when it matched.
pub proof fn selector_boolean_statuses_name_the_result(result: SelectorBooleanResult)
    ensures
        selector_boolean_outcome(result).status == 0 <==> result is Match,
        selector_boolean_outcome(result).status == 1 <==> result is SyntaxError,
        selector_boolean_outcome(result).status == 2 <==> result is HostFailure,
        selector_boolean_outcome(result).value == 1 <==> result == SelectorBooleanResult::Match(
            true,
        ),
        selector_boolean_outcome(result).value == 0 <==> result != SelectorBooleanResult::Match(
            true,
        ),
{
}

/// A selector list says by its status what became of the query, and carries the
/// host of the list exactly when there is one.
pub proof fn selector_node_list_statuses_name_the_result<L>(result: SelectorNodeListResult<L>)
    ensures
        selector_node_list_outcome(result).status == 0 <==> result is Match,
        selector_node_list_outcome(result).status == 1 <==> result is SyntaxError,
        selector_node_list_outcome(result).status == 2 <==> result is HostFailure,
        selector_node_list_outcome(result).native is Some <==> result is Match,
        result matches SelectorNodeListResult::Match(handle) ==> selector_node_list_outcome(
            result,
        ).native == Some(handle.native),
{
}

/// Each exception kind has its own number, and zero is none of them.
pub proof fn exception_kinds_have_their_numbers(
    kind: NodeMutationException,
    attribute_kind: AttributeMutationException,
)
    ensures
        node_mutation_exception_kind(kind) == 1 <==> kind is HierarchyRequest,
        node_mutation_exception_kind(kind) == 2 <==> kind is NotFound,
        attribute_mutation_exception_kind(attribute_kind) == 1,
{
}

/// A mutation outcome says by its status what became of the mutation: zero is a
/// return, one an exception and two a host failure. A return carries the node,
/// field by field, an exception its number and the encoding of its message, and
/// nothing carries what is not its own.
pub proof fn node_mutation_statuses_name_the_result<T>(
    outcome: RawNodeMutationOutcome<T>,
    result: NodeMutationView<T>,
)
    requires
        outcome.carries(result),
    ensures
        outcome.status == 0 <==> result is Returned,
        outcome.status == 1 <==> result is DomException,
        outcome.status == 2 <==> result is HostFailure,
        result matches NodeMutationView::Returned(handle) ==> {
            &&& outcome.value.kind == handle.kind
            &&& outcome.value.key == handle.key
            &&& outcome.value.native == Some(handle.native)
        },
        result !is Returned ==> outcome.value.kind == 0 && outcome.value.key == 0
            && outcome.value.native is None,
        result matches NodeMutationView::DomException { kind, message } ==> {
            &&& outcome.exception_kind == 1 <==> kind is HierarchyRequest
            &&& outcome.exception_kind == 2 <==> kind is NotFound
            &&& outcome.exception_message.owner is Some
            &&& outcome.exception_message.owner->0@ == encode_utf8(message)
            &&& outcome.exception_message.length == encode_utf8(message).len()
            &&& outcome.exception_message.drop_owner == Some(DropOwner::OwnedUtf8)
        },
        result !is DomException ==> outcome.exception_kind == 0
            && outcome.exception_message.length == 0 && outcome.exception_message.owner is None
            && outcome.exception_message.drop_owner is None,
{
}

/// A toggle outcome says by its status what became of the toggle: zero is a
/// return, one an exception and two a host failure. A return carries the boolean,
/// an exception its number and the encoding of its message, and nothing carries
/// what is not its own.
pub proof fn toggle_attribute_statuses_name_the_result(
    outcome: RawToggleAttributeOutcome,
    result: ToggleAttributeView,
)
    requires
        outcome.carries(result),
    ensures
        outcome.status == 0 <==> result is Returned,
        outcome.status == 1 <==> result is DomException,
        outcome.status == 2 <==> result is HostFailure,
        outcome.value == 1 <==> result matches ToggleAttributeView::Returned(true),
        outcome.value == 0 <==> !(result matches ToggleAttributeView::Returned(true)),
        outcome.exception_kind == 1 <==> result is DomException,
        result matches ToggleAttributeView::DomException { kind, message } ==> {
            &&& outcome.exception_message.owner is Some
            &&& outcome.exception_message.owner->0@ == encode_utf8(message)
            &&& outcome.exception_message.length == encode_utf8(message).len()
            &&& outcome.exception_message.drop_owner == Some(DropOwner::OwnedUtf8)
        },
        result !is DomException ==> outcome.exception_kind == 0
            && outcome.exception_message.length == 0 && outcome.exception_message.owner is None
            && outcome.exception_message.drop_owner is None,
{
}

} // verus!
