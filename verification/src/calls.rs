//! The calls a host can receive, as values, with text as its characters.

use crate::abi::TimerCallbackId;
use crate::console_host::ConsoleLevel;
use vstd::prelude::*;

verus! {

/// A call on a static NodeList.
pub enum NodeListCall {
    Length,
    Item(u32),
}

/// A call on a live HTMLCollection.
pub enum HTMLCollectionCall {
    Length,
    Item(u32),
    NamedItem(Seq<char>),
    SupportedNames,
}

/// A structural mutation: the context, then the nodes in the method's order.
pub enum NodeCall<T> {
    InsertBefore(usize, T, Option<T>),
    AppendChild(usize, T),
    ReplaceChild(usize, T, T),
    RemoveChild(usize, T),
}

/// A call on an Element: the context where there is one, then the arguments in
/// the method's order.
pub enum ElementCall {
    LocalName,
    TagName,
    NamespaceUri,
    Prefix,
    Id,
    SetId(usize, Seq<char>),
    ClassName,
    SetClassName(usize, Seq<char>),
    HasAttributes,
    GetAttributeNames,
    GetAttribute(usize, Seq<char>),
    HasAttribute(usize, Seq<char>),
    GetAttributeNs(usize, Option<Seq<char>>, Seq<char>),
    HasAttributeNs(usize, Option<Seq<char>>, Seq<char>),
    ToggleAttribute(usize, Seq<char>, Option<bool>),
    RemoveAttribute(usize, Seq<char>),
    RemoveAttributeNs(usize, Option<Seq<char>>, Seq<char>),
    NodeType,
    NodeName,
    IsConnected,
    TextContent,
    SetTextContent(usize, Option<Seq<char>>),
    ParentElement,
    HasChildNodes,
    Children,
    GetElementsByTagName(Seq<char>),
    GetElementsByTagNameNs(Option<Seq<char>>, Seq<char>),
    GetElementsByClassName(Seq<char>),
    FirstElementChild,
    LastElementChild,
    ChildElementCount,
    PreviousElementSibling,
    NextElementSibling,
    Remove(usize),
    QuerySelector(usize, Seq<char>),
    Closest(usize, Seq<char>),
    Matches(usize, Seq<char>),
    WebkitMatchesSelector(usize, Seq<char>),
    QuerySelectorAll(usize, Seq<char>),
}

/// A call on a timer scheduler. Scheduling carries the context, the callback or
/// source, the timeout, and whether it repeats.
pub enum TimerCall {
    ScheduleFunction(usize, TimerCallbackId, i32, bool),
    ScheduleString(usize, Seq<char>, i32, bool),
    Clear(i32),
}

/// A call on a console sink.
pub enum ConsoleCall {
    Write(ConsoleLevel, Seq<char>),
}

} // verus!
