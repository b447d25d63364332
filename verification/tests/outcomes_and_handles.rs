use servo_v8::handles::{
    element_host_write_interface_value, raw_html_collection_value, raw_null_interface_value,
    raw_optional_interface_value,
};
use servo_v8::outcomes::{
    element_host_write_node_mutation_outcome, raw_node_mutation_outcome,
    raw_selector_boolean_outcome, raw_selector_element_outcome, raw_selector_node_list_outcome,
    raw_toggle_attribute_outcome,
};
use servo_v8::transfer::raw_empty_owned_utf8;
use servo_v8::{
    raw_interface_value, AttributeMutationException, HTMLCollectionHandle,
    HTMLCollectionHostBinding, HTMLCollectionKey, InterfaceHandle, NodeListHandle,
    NodeListHostBinding, NodeMutationException, NodeMutationResult, RawNodeMutationOutcome,
    RawSelectorBooleanOutcome, SelectorBooleanResult, SelectorElementResult,
    SelectorNodeListResult, ToggleAttributeResult, INTERFACE_DOCUMENT_FRAGMENT, INTERFACE_ELEMENT,
    INTERFACE_KIND_DOCUMENT_FRAGMENT, INTERFACE_KIND_ELEMENT, INTERFACE_KIND_NULL, INTERFACE_NULL,
};

struct ListProbe(u32);

impl NodeListHostBinding for ListProbe {
    type Element = u8;

    fn length(&self) -> u32 {
        self.0
    }

    fn item(&self, _index: u32) -> Option<InterfaceHandle<u8>> {
        None
    }
}

struct CollectionProbe(u32);

impl HTMLCollectionHostBinding for CollectionProbe {
    type Element = u8;

    fn length(&self) -> u32 {
        self.0
    }

    fn item(&self, _index: u32) -> Option<InterfaceHandle<u8>> {
        None
    }

    fn named_item(&self, _name: &str) -> Option<InterfaceHandle<u8>> {
        None
    }

    fn supported_names(&self) -> Vec<String> {
        Vec::new()
    }
}

fn handle(kind: u8, key: usize, host: u8) -> InterfaceHandle<u8> {
    InterfaceHandle {
        kind,
        key,
        native: Box::new(host),
    }
}

#[test]
fn interface_kinds_keep_their_numbers() {
    assert_eq!((INTERFACE_NULL, INTERFACE_ELEMENT, INTERFACE_DOCUMENT_FRAGMENT), (0, 1, 2));
    assert_eq!(INTERFACE_KIND_NULL, INTERFACE_NULL);
    assert_eq!(INTERFACE_KIND_ELEMENT, INTERFACE_ELEMENT);
    assert_eq!(INTERFACE_KIND_DOCUMENT_FRAGMENT, INTERFACE_DOCUMENT_FRAGMENT);
}

#[test]
fn interface_values_keep_kind_key_and_host() {
    for kind in [INTERFACE_ELEMENT, INTERFACE_DOCUMENT_FRAGMENT] {
        let value = raw_interface_value(handle(kind, 0x40, 7));
        assert_eq!((value.kind, value.key, value.native), (kind, 0x40, Some(Box::new(7))));
    }
    let value = raw_null_interface_value::<u8>();
    assert_eq!((value.kind, value.key, value.native), (INTERFACE_NULL, 0, None));
    let value = raw_optional_interface_value(Some(handle(INTERFACE_ELEMENT, 3, 9)));
    assert_eq!((value.kind, value.key, value.native), (INTERFACE_ELEMENT, 3, Some(Box::new(9))));
    let value = raw_optional_interface_value::<u8>(None);
    assert_eq!((value.kind, value.key, value.native), (INTERFACE_NULL, 0, None));
}

#[test]
fn interface_values_are_written_only_into_storage() {
    let mut output = raw_interface_value(handle(INTERFACE_ELEMENT, 1, 1));
    assert_eq!(element_host_write_interface_value(Some(&mut output), None), 1);
    assert_eq!((output.kind, output.key, &output.native), (INTERFACE_NULL, 0, &None));
    let written = handle(INTERFACE_DOCUMENT_FRAGMENT, 2, 2);
    assert_eq!(element_host_write_interface_value(Some(&mut output), Some(written)), 1);
    assert_eq!((output.kind, output.key), (INTERFACE_DOCUMENT_FRAGMENT, 2));
    assert_eq!(element_host_write_interface_value::<u8>(None, None), 0);
}

#[test]
fn collection_handles_name_their_owner_or_themselves() {
    let shared = HTMLCollectionHandle::new(0x80, CollectionProbe(3));
    assert_eq!(shared.key, HTMLCollectionKey::Owner(0x80));
    let value = raw_html_collection_value(shared);
    assert_eq!(value.key, HTMLCollectionKey::Owner(0x80));
    assert_eq!(value.native.unwrap().length(), 3);
    let fresh = HTMLCollectionHandle::new_unique(CollectionProbe(4));
    assert_eq!(fresh.key, HTMLCollectionKey::Native);
    let value = raw_html_collection_value(fresh);
    assert_eq!(value.key, HTMLCollectionKey::Native);
    assert_eq!(value.native.unwrap().length(), 4);
}

#[test]
fn selector_elements_spell_each_result() {
    let hit = raw_selector_element_outcome(SelectorElementResult::Match(Some(handle(1, 5, 6))));
    assert_eq!((hit.status, hit.value.kind, hit.value.key), (0, 1, 5));
    assert_eq!(hit.value.native, Some(Box::new(6)));
    for (result, status) in [
        (SelectorElementResult::Match(None::<InterfaceHandle<u8>>), 0),
        (SelectorElementResult::SyntaxError, 1),
        (SelectorElementResult::HostFailure, 2),
    ] {
        let outcome = raw_selector_element_outcome(result);
        assert_eq!(outcome.status, status);
        assert_eq!((outcome.value.kind, outcome.value.key), (INTERFACE_NULL, 0));
        assert!(outcome.value.native.is_none());
    }
}

#[test]
fn selector_booleans_spell_each_result() {
    for (result, status, value) in [
        (SelectorBooleanResult::Match(true), 0, 1),
        (SelectorBooleanResult::Match(false), 0, 0),
        (SelectorBooleanResult::SyntaxError, 1, 0),
        (SelectorBooleanResult::HostFailure, 2, 0),
    ] {
        assert_eq!(
            raw_selector_boolean_outcome(result),
            RawSelectorBooleanOutcome { status, value }
        );
    }
}

#[test]
fn selector_lists_spell_each_result() {
    let hit = raw_selector_node_list_outcome(SelectorNodeListResult::Match(NodeListHandle::new(
        ListProbe(8),
    )));
    assert_eq!(hit.status, 0);
    assert_eq!(hit.native.unwrap().length(), 8);
    let syntax = raw_selector_node_list_outcome(SelectorNodeListResult::<ListProbe>::SyntaxError);
    assert_eq!(syntax.status, 1);
    assert!(syntax.native.is_none());
    let failure = raw_selector_node_list_outcome(SelectorNodeListResult::<ListProbe>::HostFailure);
    assert_eq!(failure.status, 2);
    assert!(failure.native.is_none());
}

#[test]
fn node_mutations_spell_each_result() {
    let returned = raw_node_mutation_outcome(NodeMutationResult::Returned(handle(2, 5, 6)));
    assert_eq!((returned.status, returned.exception_kind), (0, 0));
    assert_eq!((returned.value.kind, returned.value.key), (2, 5));
    assert!(returned.exception_message.owner.is_none());
    for (kind, code) in [
        (NodeMutationException::HierarchyRequest, 1),
        (NodeMutationException::NotFound, 2),
    ] {
        let outcome = raw_node_mutation_outcome(NodeMutationResult::<u8>::DomException {
            kind,
            message: "naïve".to_owned(),
        });
        assert_eq!((outcome.status, outcome.exception_kind), (1, code));
        assert_eq!(outcome.exception_message.data(), Some("naïve".as_bytes()));
        assert_eq!(outcome.value.kind, INTERFACE_NULL);
    }
    let mut output = RawNodeMutationOutcome {
        status: 9,
        exception_kind: 9,
        exception_message: raw_empty_owned_utf8(),
        value: raw_null_interface_value::<u8>(),
    };
    let failure = NodeMutationResult::HostFailure;
    assert_eq!(element_host_write_node_mutation_outcome(Some(&mut output), failure), 1);
    assert_eq!((output.status, output.exception_kind), (2, 0));
    let failure = NodeMutationResult::<u8>::HostFailure;
    assert_eq!(element_host_write_node_mutation_outcome(None, failure), 0);
}

#[test]
fn toggles_spell_each_result() {
    for value in [false, true] {
        let outcome = raw_toggle_attribute_outcome(ToggleAttributeResult::Returned(value));
        assert_eq!((outcome.status, outcome.exception_kind), (0, 0));
        assert_eq!(outcome.value, value as u8);
        assert!(outcome.exception_message.owner.is_none());
    }
    let outcome = raw_toggle_attribute_outcome(ToggleAttributeResult::DomException {
        kind: AttributeMutationException::InvalidCharacter,
        message: String::new(),
    });
    assert_eq!((outcome.status, outcome.exception_kind, outcome.value), (1, 1, 0));
    assert_eq!(outcome.exception_message.data(), Some(&b""[..]));
    let outcome = raw_toggle_attribute_outcome(ToggleAttributeResult::HostFailure);
    assert_eq!((outcome.status, outcome.exception_kind, outcome.value), (2, 0, 0));
}
