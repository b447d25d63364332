use servo_v8::console_host::enter_console;
use servo_v8::element_host::{
    enter_namespace_query, enter_toggle, enter_with_context, enter_with_namespace,
    enter_with_nullable_text, enter_with_text,
};
use servo_v8::node_host::{enter_insert_before, enter_replace_child, enter_with_node};
use servo_v8::timer_host::enter_schedule;
use servo_v8::transfer::raw_empty_owned_utf8;
use servo_v8::{
    ConsoleLevel, HTMLCollectionHandle, HTMLCollectionKey, InterfaceHandle, NodeMutationResult,
    RawHTMLCollectionValue, RawInterfaceValue, RawNodeMutationOutcome, RawToggleAttributeOutcome,
    ToggleAttributeResult, Utf8Argument, INTERFACE_ELEMENT, INTERFACE_NULL,
};
use std::cell::RefCell;

const NULL: Utf8Argument<'static> = Utf8Argument::Null { length: 0 };
const BAD: Utf8Argument<'static> = Utf8Argument::Bytes(b"\xff");

fn utf8(text: &str) -> Utf8Argument<'_> {
    Utf8Argument::Bytes(text.as_bytes())
}

fn refused<A>(_: A) -> bool {
    panic!("a refused call must not enter the host")
}

fn toggle_output() -> RawToggleAttributeOutcome {
    RawToggleAttributeOutcome {
        status: 9,
        exception_kind: 9,
        exception_message: raw_empty_owned_utf8(),
        value: 9,
    }
}

fn mutation_output() -> RawNodeMutationOutcome<u8> {
    RawNodeMutationOutcome {
        status: 9,
        exception_kind: 9,
        exception_message: raw_empty_owned_utf8(),
        value: RawInterfaceValue {
            kind: INTERFACE_NULL,
            key: 0,
            native: None,
        },
    }
}

fn returned(host: u8) -> NodeMutationResult<u8> {
    NodeMutationResult::Returned(InterfaceHandle {
        kind: INTERFACE_ELEMENT,
        key: 5,
        native: Box::new(host),
    })
}

#[test]
fn actions_enter_once_with_what_was_spelled() {
    let calls = RefCell::new(Vec::new());
    let log = |call: String| {
        calls.borrow_mut().push(call);
        true
    };
    assert_eq!(enter_with_context(3, |context| log(format!("{context}"))), 1);
    assert_eq!(enter_with_text(3, utf8("a"), |context, text| log(format!("{context} {text}"))), 1);
    assert_eq!(enter_with_nullable_text(3, 1, NULL, |_, text| log(format!("{text:?}"))), 1);
    assert_eq!(
        enter_with_namespace(3, 0, utf8("n"), utf8("l"), |_, namespace, name| {
            log(format!("{namespace:?} {name}"))
        }),
        1
    );
    assert_eq!(*calls.borrow(), ["3", "3 a", "None", "Some(\"n\") l"]);
    assert_eq!(enter_with_text(3, utf8("a"), |_, _| false), 0);
}

#[test]
fn refused_actions_do_not_enter() {
    assert_eq!(enter_with_context(0, refused), 0);
    assert_eq!(enter_with_text(0, utf8("a"), |a, b| refused((a, b))), 0);
    assert_eq!(enter_with_text(3, BAD, |a, b| refused((a, b))), 0);
    assert_eq!(enter_with_nullable_text(3, 2, NULL, |a, b| refused((a, b))), 0);
    assert_eq!(enter_with_nullable_text(3, 1, utf8(""), |a, b| refused((a, b))), 0);
    assert_eq!(enter_with_namespace(3, 0, BAD, utf8("l"), |a, b, c| refused((a, b, c))), 0);
    assert_eq!(enter_with_namespace(3, 1, NULL, BAD, |a, b, c| refused((a, b, c))), 0);
}

#[test]
fn toggles_enter_once_or_not_at_all() {
    let mut output = toggle_output();
    for (context, name, present, force) in [
        (0, utf8("a"), 0, 0),
        (3, BAD, 0, 0),
        (3, utf8("a"), 2, 0),
        (3, utf8("a"), 0, 1),
        (3, utf8("a"), 1, 2),
    ] {
        let status = enter_toggle(context, name, present, force, Some(&mut output), |_, _, _| {
            panic!("a refused call must not enter the host")
        });
        assert_eq!((status, output.status, output.value), (0, 9, 9));
    }
    let status = enter_toggle(3, utf8("a"), 0, 0, None, |_, _, _| {
        panic!("a refused call must not enter the host")
    });
    assert_eq!(status, 0);
    let status = enter_toggle(3, utf8("a"), 1, 1, Some(&mut output), |context, name, force| {
        assert_eq!((context, name, force), (3, "a", Some(true)));
        ToggleAttributeResult::Returned(true)
    });
    assert_eq!((status, output.status, output.value), (1, 0, 1));
}

#[test]
fn namespace_queries_enter_once_or_not_at_all() {
    let mut output = RawHTMLCollectionValue {
        key: HTMLCollectionKey::Owner(0),
        native: None,
    };
    let status = enter_namespace_query(1, utf8(""), utf8("l"), Some(&mut output), |_, _| {
        panic!("a refused call must not enter the host")
    });
    assert_eq!(status, 0);
    let status = enter_namespace_query(1, NULL, utf8("l"), Some(&mut output), |namespace, name| {
        assert_eq!((namespace, name), (None, "l"));
        HTMLCollectionHandle {
            key: HTMLCollectionKey::Native,
            native: Box::new(8u8),
        }
    });
    assert_eq!((status, output.key), (1, HTMLCollectionKey::Native));
    assert_eq!(output.native, Some(Box::new(8)));
}

#[test]
fn mutations_enter_once_or_not_at_all() {
    let (node, child) = (1u8, 2u8);
    let mut output = mutation_output();
    let (n, c, storage) = (Some(&node), Some(&child), Some(&mut output));
    let status = enter_insert_before(3, n, 1, c, storage, |_, _, _| {
        panic!("a refused call must not enter the host")
    });
    assert_eq!((status, output.status), (0, 9));
    let status = enter_insert_before(3, Some(&node), 1, None, Some(&mut output), |context, n, c| {
        assert_eq!((context, *n, c), (3, 1, None));
        returned(*n)
    });
    assert_eq!((status, output.status, output.value.key), (1, 0, 5));
    let status = enter_with_node(0, Some(&node), Some(&mut output), |_, _| {
        panic!("a refused call must not enter the host")
    });
    assert_eq!(status, 0);
    let status = enter_with_node(3, Some(&node), Some(&mut output), |_, n| returned(*n));
    assert_eq!((status, output.value.native.take()), (1, Some(Box::new(1))));
    let status = enter_replace_child(3, Some(&node), None, Some(&mut output), |_, _, _| {
        panic!("a refused call must not enter the host")
    });
    assert_eq!(status, 0);
    let both = Some(&mut output);
    let status = enter_replace_child(3, Some(&node), Some(&child), both, |_, _, c| returned(*c));
    assert_eq!((status, output.value.native), (1, Some(Box::new(2))));
}

#[test]
fn schedulings_enter_once_or_not_at_all() {
    let mut handle = -1;
    let status = enter_schedule(2, Some(&mut handle), |_| {
        panic!("a refused call must not enter the host")
    });
    assert_eq!((status, handle), (0, -1));
    let status = enter_schedule(0, None, |_| panic!("a refused call must not enter the host"));
    assert_eq!(status, 0);
    let status = enter_schedule(1, Some(&mut handle), |repeats| {
        assert!(repeats);
        Some(6)
    });
    assert_eq!((status, handle), (1, 6));
    assert_eq!(enter_schedule(0, Some(&mut handle), |_| None), 0);
    assert_eq!(handle, 6);
}

#[test]
fn console_messages_enter_once_or_not_at_all() {
    let written = RefCell::new(Vec::new());
    enter_console(4, utf8("t"), |level, text| written.borrow_mut().push((level, text.to_owned())));
    enter_console(6, utf8("t"), |_, _| panic!("a refused call must not enter the sink"));
    enter_console(4, BAD, |_, _| panic!("a refused call must not enter the sink"));
    assert_eq!(*written.borrow(), [(ConsoleLevel::Trace, "t".to_owned())]);
}
