//! The host traits an embedder implements for the objects V8 can reach.
//!
//! A `host_context` is the address of the embedding engine's context, valid
//! only during the call that supplies it; zero means that there is none. The
//! methods that need a context are never called without one.
//!
//! Every method asks for `expects` of the call it is about to receive, and a
//! callback asks for `expects` of a call only where its arguments spell that
//! call. So the contracts say that a refused call never enters a host.

use crate::abi::TimerCallbackId;
use crate::calls::{
    ConsoleCall, ElementCall, HTMLCollectionCall, NodeCall, NodeListCall, TimerCall,
};
use crate::console_host::ConsoleLevel;
use crate::handles::{HTMLCollectionHandle, InterfaceHandle};
use crate::outcomes::{
    NodeMutationResult, SelectorBooleanResult, SelectorElementResult, SelectorNodeListResult,
    ToggleAttributeResult,
};
use crate::text;
use vstd::prelude::*;

verus! {

/// The nodes behind a nullable reference.
pub open spec fn lent<T>(node: Option<&T>) -> Option<T> {
    match node {
        Some(node) => Some(*node),
        None => None,
    }
}

/// A static NodeList created for one querySelectorAll call.
///
/// Implementations stay on their originating script thread. `length`, `item`,
/// and `Drop` must not unwind, re-enter V8 or cppgc, or pump an event loop.
/// Every item must return a freshly owned host whose cache key names the
/// rooted object.
pub trait NodeListHostBinding: Sized + 'static {
    /// The host type installed for the Nodes of this list.
    type Element;

    /// The calls this host is prepared to receive, all of them unless it says
    /// otherwise. A callback enters it with the one call that its arguments
    /// spell, or not at all.
    open spec fn expects(&self, call: NodeListCall) -> bool {
        true
    }

    fn length(&self) -> u32
        requires
            self.expects(NodeListCall::Length),
    ;

    fn item(&self, index: u32) -> Option<InterfaceHandle<Self::Element>>
        requires
            self.expects(NodeListCall::Item(index)),
    ;
}

/// A live HTMLCollection returned by a DOM attribute or operation.
///
/// Implementations stay on their originating script thread. `length`, `item`,
/// `named_item`, and `Drop` must not unwind, re-enter V8 or cppgc, or pump an
/// event loop. Every returned item must be a freshly owned host and must key
/// the rooted Element it represents.
pub trait HTMLCollectionHostBinding: Sized + 'static {
    /// The host type installed for the Elements of this collection.
    type Element;

    /// The calls this host is prepared to receive, all of them unless it says
    /// otherwise. A callback enters it with the one call that its arguments
    /// spell, or not at all.
    open spec fn expects(&self, call: HTMLCollectionCall) -> bool {
        true
    }

    fn length(&self) -> u32
        requires
            self.expects(HTMLCollectionCall::Length),
    ;

    fn item(&self, index: u32) -> Option<InterfaceHandle<Self::Element>>
        requires
            self.expects(HTMLCollectionCall::Item(index)),
    ;

    fn named_item(&self, name: &str) -> Option<InterfaceHandle<Self::Element>>
        requires
            self.expects(HTMLCollectionCall::NamedItem(name@)),
    ;

    fn supported_names(&self) -> Vec<String>
        requires
            self.expects(HTMLCollectionCall::SupportedNames),
    ;
}

/// Node's structural mutation surface for the runtime's installed host type.
///
/// It is independent from Element so one host type may represent both Element
/// and DocumentFragment wrappers. Inputs are borrowed synchronously:
/// implementations must not retain them. No method may unwind, enter V8, or
/// pump an event loop.
pub trait NodeHostBinding: Sized + 'static {
    /// The calls this host is prepared to receive, all of them unless it says
    /// otherwise. A callback enters it with the one call that its arguments
    /// spell, or not at all.
    open spec fn expects_mutation(&self, call: NodeCall<Self>) -> bool {
        true
    }

    fn insert_before(
        &self,
        host_context: usize,
        node: &Self,
        child: Option<&Self>,
    ) -> NodeMutationResult<Self>
        requires
            host_context != 0,
            self.expects_mutation(NodeCall::InsertBefore(host_context, *node, lent(child))),
    ;

    fn append_child(&self, host_context: usize, node: &Self) -> NodeMutationResult<Self>
        requires
            host_context != 0,
            self.expects_mutation(NodeCall::AppendChild(host_context, *node)),
    ;

    fn replace_child(
        &self,
        host_context: usize,
        node: &Self,
        child: &Self,
    ) -> NodeMutationResult<Self>
        requires
            host_context != 0,
            self.expects_mutation(NodeCall::ReplaceChild(host_context, *node, *child)),
    ;

    fn remove_child(&self, host_context: usize, child: &Self) -> NodeMutationResult<Self>
        requires
            host_context != 0,
            self.expects_mutation(NodeCall::RemoveChild(host_context, *child)),
    ;
}

/// The one host type used by every V8-visible Node kind.
///
/// Implementations must stay on the owning script thread, must not unwind, and
/// must root the DOM object they read for the duration of the call. A host is
/// dropped from a cppgc destructor during a V8 collection, so its `Drop` must
/// not re-enter V8 or pump an event loop. Element-only members are
/// brand-checked before they are invoked; implementations must still fail
/// safely if their host represents a non-Element Node.
pub trait ElementHostBinding: NodeHostBinding {
    /// The host type installed for live collections.
    type Collection: HTMLCollectionHostBinding<Element = Self>;

    /// The host type installed for static lists.
    type NodeList: NodeListHostBinding<Element = Self>;

    /// The calls this host is prepared to receive, all of them unless it says
    /// otherwise. A callback enters it with the one call that its arguments
    /// spell, or not at all.
    open spec fn expects(&self, call: ElementCall) -> bool {
        true
    }

    fn local_name(&self) -> String
        requires
            self.expects(ElementCall::LocalName),
    ;

    fn tag_name(&self) -> String
        requires
            self.expects(ElementCall::TagName),
    ;

    fn namespace_uri(&self) -> Option<String>
        requires
            self.expects(ElementCall::NamespaceUri),
    ;

    fn prefix(&self) -> Option<String>
        requires
            self.expects(ElementCall::Prefix),
    ;

    fn id(&self) -> String
        requires
            self.expects(ElementCall::Id),
    ;

    fn set_id(&self, host_context: usize, value: &str) -> bool
        requires
            host_context != 0,
            self.expects(ElementCall::SetId(host_context, value@)),
    ;

    fn class_name(&self) -> String
        requires
            self.expects(ElementCall::ClassName),
    ;

    fn set_class_name(&self, host_context: usize, value: &str) -> bool
        requires
            host_context != 0,
            self.expects(ElementCall::SetClassName(host_context, value@)),
    ;

    fn has_attributes(&self) -> bool
        requires
            self.expects(ElementCall::HasAttributes),
    ;

    fn get_attribute_names(&self) -> Vec<String>
        requires
            self.expects(ElementCall::GetAttributeNames),
    ;

    fn get_attribute(&self, host_context: usize, name: &str) -> Result<Option<String>, ()>
        requires
            host_context != 0,
            self.expects(ElementCall::GetAttribute(host_context, name@)),
    ;

    fn has_attribute(&self, host_context: usize, name: &str) -> Option<bool>
        requires
            host_context != 0,
            self.expects(ElementCall::HasAttribute(host_context, name@)),
    ;

    fn get_attribute_ns(
        &self,
        host_context: usize,
        namespace: Option<&str>,
        local_name: &str,
    ) -> Result<Option<String>, ()>
        requires
            host_context != 0,
            self.expects(
                ElementCall::GetAttributeNs(
                    host_context,
                    text::optional_text(namespace),
                    local_name@,
                ),
            ),
    ;

    fn has_attribute_ns(
        &self,
        host_context: usize,
        namespace: Option<&str>,
        local_name: &str,
    ) -> Option<bool>
        requires
            host_context != 0,
            self.expects(
                ElementCall::HasAttributeNs(
                    host_context,
                    text::optional_text(namespace),
                    local_name@,
                ),
            ),
    ;

    fn toggle_attribute(
        &self,
        host_context: usize,
        name: &str,
        force: Option<bool>,
    ) -> ToggleAttributeResult
        requires
            host_context != 0,
            self.expects(ElementCall::ToggleAttribute(host_context, name@, force)),
    ;

    fn remove_attribute(&self, host_context: usize, name: &str) -> bool
        requires
            host_context != 0,
            self.expects(ElementCall::RemoveAttribute(host_context, name@)),
    ;

    fn remove_attribute_ns(
        &self,
        host_context: usize,
        namespace: Option<&str>,
        local_name: &str,
    ) -> bool
        requires
            host_context != 0,
            self.expects(
                ElementCall::RemoveAttributeNs(
                    host_context,
                    text::optional_text(namespace),
                    local_name@,
                ),
            ),
    ;

    fn node_type(&self) -> u16
        requires
            self.expects(ElementCall::NodeType),
    ;

    fn node_name(&self) -> String
        requires
            self.expects(ElementCall::NodeName),
    ;

    fn is_connected(&self) -> bool
        requires
            self.expects(ElementCall::IsConnected),
    ;

    fn text_content(&self) -> Option<String>
        requires
            self.expects(ElementCall::TextContent),
    ;

    fn set_text_content(&self, host_context: usize, value: Option<&str>) -> bool
        requires
            host_context != 0,
            self.expects(ElementCall::SetTextContent(host_context, text::optional_text(value))),
    ;

    fn parent_element(&self) -> Option<InterfaceHandle<Self>>
        requires
            self.expects(ElementCall::ParentElement),
    ;

    fn has_child_nodes(&self) -> bool
        requires
            self.expects(ElementCall::HasChildNodes),
    ;

    fn children(&self) -> HTMLCollectionHandle<Self::Collection>
        requires
            self.expects(ElementCall::Children),
    ;

    fn get_elements_by_tag_name(&self, qualified_name: &str) -> HTMLCollectionHandle<
        Self::Collection,
    >
        requires
            self.expects(ElementCall::GetElementsByTagName(qualified_name@)),
    ;

    fn get_elements_by_tag_name_ns(
        &self,
        namespace: Option<&str>,
        local_name: &str,
    ) -> HTMLCollectionHandle<Self::Collection>
        requires
            self.expects(
                ElementCall::GetElementsByTagNameNs(text::optional_text(namespace), local_name@),
            ),
    ;

    fn get_elements_by_class_name(&self, class_names: &str) -> HTMLCollectionHandle<
        Self::Collection,
    >
        requires
            self.expects(ElementCall::GetElementsByClassName(class_names@)),
    ;

    fn first_element_child(&self) -> Option<InterfaceHandle<Self>>
        requires
            self.expects(ElementCall::FirstElementChild),
    ;

    fn last_element_child(&self) -> Option<InterfaceHandle<Self>>
        requires
            self.expects(ElementCall::LastElementChild),
    ;

    fn child_element_count(&self) -> u32
        requires
            self.expects(ElementCall::ChildElementCount),
    ;

    fn previous_element_sibling(&self) -> Option<InterfaceHandle<Self>>
        requires
            self.expects(ElementCall::PreviousElementSibling),
    ;

    fn next_element_sibling(&self) -> Option<InterfaceHandle<Self>>
        requires
            self.expects(ElementCall::NextElementSibling),
    ;

    fn remove(&self, host_context: usize) -> bool
        requires
            host_context != 0,
            self.expects(ElementCall::Remove(host_context)),
    ;

    fn query_selector(&self, host_context: usize, selectors: &str) -> SelectorElementResult<Self>
        requires
            host_context != 0,
            self.expects(ElementCall::QuerySelector(host_context, selectors@)),
    ;

    fn closest(&self, host_context: usize, selectors: &str) -> SelectorElementResult<Self>
        requires
            host_context != 0,
            self.expects(ElementCall::Closest(host_context, selectors@)),
    ;

    fn matches(&self, host_context: usize, selectors: &str) -> SelectorBooleanResult
        requires
            host_context != 0,
            self.expects(ElementCall::Matches(host_context, selectors@)),
    ;

    fn webkit_matches_selector(
        &self,
        host_context: usize,
        selectors: &str,
    ) -> SelectorBooleanResult
        requires
            host_context != 0,
            self.expects(ElementCall::WebkitMatchesSelector(host_context, selectors@)),
    ;

    fn query_selector_all(&self, host_context: usize, selectors: &str) -> SelectorNodeListResult<
        Self::NodeList,
    >
        requires
            host_context != 0,
            self.expects(ElementCall::QuerySelectorAll(host_context, selectors@)),
    ;
}

/// A realm-owned bridge to the embedder's timer scheduler.
///
/// Implementations and `Drop` must stay on the owning script thread, must not
/// unwind, re-enter V8, or pump an event loop.
pub trait TimerHostBinding: Sized + 'static {
    /// The calls this host is prepared to receive, all of them unless it says
    /// otherwise. A callback enters it with the one call that its arguments
    /// spell, or not at all.
    open spec fn expects(&self, call: TimerCall) -> bool {
        true
    }

    fn schedule_function(
        &self,
        host_context: usize,
        callback_id: TimerCallbackId,
        timeout_ms: i32,
        is_interval: bool,
    ) -> Option<i32>
        requires
            self.expects(
                TimerCall::ScheduleFunction(host_context, callback_id, timeout_ms, is_interval),
            ),
    ;

    fn schedule_string(
        &self,
        host_context: usize,
        source: &str,
        timeout_ms: i32,
        is_interval: bool,
    ) -> Option<i32>
        requires
            self.expects(TimerCall::ScheduleString(host_context, source@, timeout_ms, is_interval)),
    ;

    fn clear(&self, handle: i32)
        requires
            self.expects(TimerCall::Clear(handle)),
    ;
}

/// A realm-owned sink for the supported console logging operations.
///
/// Implementations and `Drop` must remain on the owning script thread, must
/// not unwind, re-enter V8, or pump an event loop. JavaScript values never
/// cross this trait: they are formatted first and arrive as valid UTF-8.
pub trait ConsoleHostBinding: Sized + 'static {
    /// The calls this host is prepared to receive, all of them unless it says
    /// otherwise. A callback enters it with the one call that its arguments
    /// spell, or not at all.
    open spec fn expects(&self, call: ConsoleCall) -> bool {
        true
    }

    fn write(&self, level: ConsoleLevel, message: &str)
        requires
            self.expects(ConsoleCall::Write(level, message@)),
    ;
}

/// A nullable reference lends the node it aims at, and null lends none.
pub proof fn references_lend_their_node<T>(node: Option<&T>)
    ensures
        lent(node) is None <==> node is None,
        node matches Some(node) ==> lent(Some(node)) == Some(*node),
{
}

} // verus!
