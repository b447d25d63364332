use servo_v8::console_host::{console_host_write, console_level, console_record};
use servo_v8::timer_host::{
    timer_host_clear, timer_host_schedule_function, timer_host_schedule_string,
};
use servo_v8::{
    ConsoleHostBinding, ConsoleLevel, TimerCallbackId, TimerHostBinding, Utf8Argument,
};
use std::cell::{Cell, RefCell};

const NULL: Utf8Argument<'static> = Utf8Argument::Null { length: 0 };

struct TimerProbe {
    functions: RefCell<Vec<(usize, TimerCallbackId, i32, bool)>>,
    strings: RefCell<Vec<(usize, String, i32, bool)>>,
    clears: RefCell<Vec<i32>>,
    next_handle: Cell<Option<i32>>,
}

impl TimerProbe {
    fn new() -> Self {
        TimerProbe {
            functions: RefCell::new(Vec::new()),
            strings: RefCell::new(Vec::new()),
            clears: RefCell::new(Vec::new()),
            next_handle: Cell::new(Some(17)),
        }
    }
}

impl TimerHostBinding for TimerProbe {
    fn schedule_function(
        &self,
        host_context: usize,
        callback_id: TimerCallbackId,
        timeout_ms: i32,
        is_interval: bool,
    ) -> Option<i32> {
        let call = (host_context, callback_id, timeout_ms, is_interval);
        self.functions.borrow_mut().push(call);
        self.next_handle.get()
    }

    fn schedule_string(
        &self,
        host_context: usize,
        source: &str,
        timeout_ms: i32,
        is_interval: bool,
    ) -> Option<i32> {
        let call = (host_context, source.to_owned(), timeout_ms, is_interval);
        self.strings.borrow_mut().push(call);
        self.next_handle.get()
    }

    fn clear(&self, handle: i32) {
        self.clears.borrow_mut().push(handle);
    }
}

struct ConsoleProbe(RefCell<Vec<(ConsoleLevel, String)>>);

impl ConsoleHostBinding for ConsoleProbe {
    fn write(&self, level: ConsoleLevel, message: &str) {
        self.0.borrow_mut().push((level, message.to_owned()));
    }
}

#[test]
fn timer_functions_are_scheduled_as_called() {
    let probe = TimerProbe::new();
    let id = TimerCallbackId(5);
    let mut handle = -1;
    assert_eq!(timer_host_schedule_function(Some(&probe), 9, id, 12, 0, Some(&mut handle)), 1);
    assert_eq!(handle, 17);
    probe.next_handle.set(Some(i32::MIN));
    assert_eq!(timer_host_schedule_function(Some(&probe), 0, id, -9, 1, Some(&mut handle)), 1);
    assert_eq!(handle, i32::MIN);
    assert_eq!(*probe.functions.borrow(), [(9, id, 12, false), (0, id, -9, true)]);

    assert_eq!(timer_host_schedule_function(Some(&probe), 9, id, 12, 2, Some(&mut handle)), 0);
    assert_eq!(timer_host_schedule_function(Some(&probe), 9, id, 12, 0, None), 0);
    assert_eq!(
        timer_host_schedule_function::<TimerProbe>(None, 9, id, 12, 0, Some(&mut handle)),
        0
    );
    assert_eq!(probe.functions.borrow().len(), 2);
    probe.next_handle.set(None);
    assert_eq!(timer_host_schedule_function(Some(&probe), 9, id, 12, 0, Some(&mut handle)), 0);
    assert_eq!(handle, i32::MIN);
}

#[test]
fn timer_strings_are_scheduled_as_called() {
    let probe = TimerProbe::new();
    let source = Utf8Argument::Bytes("x = '\u{2713}'".as_bytes());
    let mut handle = -1;
    assert_eq!(timer_host_schedule_string(Some(&probe), 4, source, 0, 1, Some(&mut handle)), 1);
    assert_eq!(timer_host_schedule_string(Some(&probe), 4, NULL, -1, 0, Some(&mut handle)), 1);
    assert_eq!(handle, 17);
    assert_eq!(
        *probe.strings.borrow(),
        [(4, "x = '\u{2713}'".to_owned(), 0, true), (4, String::new(), -1, false)]
    );
    handle = -1;
    for (source, is_interval) in [
        (source, 2),
        (Utf8Argument::Null { length: 1 }, 0),
        (Utf8Argument::Bytes(b"\xff"), 0),
    ] {
        let output = Some(&mut handle);
        assert_eq!(
            timer_host_schedule_string(Some(&probe), 4, source, 0, is_interval, output),
            0
        );
    }
    assert_eq!(timer_host_schedule_string(Some(&probe), 4, source, 0, 0, None), 0);
    assert_eq!(
        timer_host_schedule_string::<TimerProbe>(None, 4, source, 0, 0, Some(&mut handle)),
        0
    );
    assert_eq!(probe.strings.borrow().len(), 2);
    probe.next_handle.set(None);
    assert_eq!(timer_host_schedule_string(Some(&probe), 4, source, 0, 0, Some(&mut handle)), 0);
    assert_eq!(handle, -1);
}

#[test]
fn timers_are_cleared_by_handle() {
    let probe = TimerProbe::new();
    timer_host_clear(Some(&probe), 17);
    timer_host_clear(Some(&probe), -3);
    timer_host_clear::<TimerProbe>(None, 1);
    assert_eq!(*probe.clears.borrow(), [17, -3]);
}

#[test]
fn console_levels_are_read_from_their_codes() {
    let levels = [
        ConsoleLevel::Debug,
        ConsoleLevel::Error,
        ConsoleLevel::Info,
        ConsoleLevel::Log,
        ConsoleLevel::Trace,
        ConsoleLevel::Warn,
    ];
    for (code, level) in levels.iter().enumerate() {
        assert_eq!(console_level(code as u32), Some(*level));
    }
    assert_eq!(console_level(6), None);
    assert_eq!(console_level(u32::MAX), None);
}

#[test]
fn console_records_need_a_level_and_a_text() {
    assert_eq!(
        console_record(5, Utf8Argument::Bytes("warn \u{2713}".as_bytes())),
        Some((ConsoleLevel::Warn, "warn \u{2713}"))
    );
    assert_eq!(console_record(3, NULL), Some((ConsoleLevel::Log, "")));
    assert_eq!(console_record(6, NULL), None);
    assert_eq!(console_record(0, Utf8Argument::Null { length: 2 }), None);
    assert_eq!(console_record(0, Utf8Argument::Bytes(b"\xff")), None);
}

#[test]
fn console_messages_reach_the_sink_or_are_dropped() {
    let probe = ConsoleProbe(RefCell::new(Vec::new()));
    console_host_write(Some(&probe), 0, Utf8Argument::Bytes(b"debug 1"));
    console_host_write(Some(&probe), 5, Utf8Argument::Bytes("warn \u{2713}".as_bytes()));
    console_host_write(Some(&probe), 1, NULL);
    console_host_write(Some(&probe), 6, Utf8Argument::Bytes(b"unknown"));
    console_host_write(Some(&probe), 2, Utf8Argument::Bytes(b"\xc3"));
    console_host_write(Some(&probe), 2, Utf8Argument::Null { length: 1 });
    console_host_write::<ConsoleProbe>(None, 2, Utf8Argument::Bytes(b"nobody"));
    assert_eq!(
        *probe.0.borrow(),
        [
            (ConsoleLevel::Debug, "debug 1".to_owned()),
            (ConsoleLevel::Warn, "warn \u{2713}".to_owned()),
            (ConsoleLevel::Error, String::new()),
        ]
    );
}
