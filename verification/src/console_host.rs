//! The callback behind the console logging functions.

use crate::bindings::ConsoleHostBinding;
use crate::calls::ConsoleCall;
use crate::text::{element_host_utf8, Utf8Argument};
use vstd::prelude::*;

verus! {

/// A console logging level pinned to the C ABI.
#[derive(Clone, Copy, Debug, Eq, PartialEq, Structural)]
pub enum ConsoleLevel {
    Debug,
    Error,
    Info,
    Log,
    Trace,
    Warn,
}

impl ConsoleLevel {
    /// The number that spells the level on the ABI.
    pub open spec fn code(self) -> u32 {
        match self {
            ConsoleLevel::Debug => 0,
            ConsoleLevel::Error => 1,
            ConsoleLevel::Info => 2,
            ConsoleLevel::Log => 3,
            ConsoleLevel::Trace => 4,
            ConsoleLevel::Warn => 5,
        }
    }
}

/// The level that a number spells. Only the six codes spell one.
pub fn console_level(code: u32) -> (level: Option<ConsoleLevel>)
    ensures
        level is Some <==> code <= ConsoleLevel::Warn.code(),
        level matches Some(level) ==> level.code() == code,
{
    match code {
        0 => Some(ConsoleLevel::Debug),
        1 => Some(ConsoleLevel::Error),
        2 => Some(ConsoleLevel::Info),
        3 => Some(ConsoleLevel::Log),
        4 => Some(ConsoleLevel::Trace),
        5 => Some(ConsoleLevel::Warn),
        _ => None,
    }
}

/// What a logging call says: a level and a text, or nothing where the level is
/// unknown or the message is malformed.
pub fn console_record<'a>(level: u32, message: Utf8Argument<'a>) -> (record: Option<
    (ConsoleLevel, &'a str),
>)
    ensures
        record is Some <==> level <= ConsoleLevel::Warn.code() && message.text() is Some,
        record matches Some(record) ==> record.0.code() == level && Some(record.1@)
            == message.text(),
{
    let Some(level) = console_level(level) else {
        return None;
    };
    let Some(text) = element_host_utf8(message) else {
        return None;
    };
    Some((level, text))
}

/// Decides a logging call: the sink is entered once, with the level and the text
/// that were spelled, or not at all.
pub fn enter_console<'a, F: FnOnce(ConsoleLevel, &'a str)>(
    level: u32,
    message: Utf8Argument<'a>,
    enter: F,
)
    requires
        forall|known: ConsoleLevel, text: &'a str|
            known.code() == level && Some(text@) == message.text() ==> #[trigger] call_requires(
                enter,
                (known, text),
            ),
    ensures
        level <= ConsoleLevel::Warn.code() && message.text() is Some ==> exists|
            known: ConsoleLevel,
            text: &'a str,
        | #[trigger]
            call_ensures(enter, (known, text), ())
                && known.code() == level
                && Some(text@) == message.text(),
{
    if let Some((known, text)) = console_record(level, message) {
        enter(known, text);
    }
}

/// Hands one message to the sink. A call without a sink, with an unknown level
/// or with a malformed message is dropped and enters no sink.
pub fn console_host_write<T: ConsoleHostBinding>(
    native: Option<&T>,
    level: u32,
    message: Utf8Argument<'_>,
)
    requires
        native matches Some(native) ==> forall|known: ConsoleLevel, text: Seq<char>|
            known.code() == level && Some(text) == message.text() ==> #[trigger] native.expects(
                ConsoleCall::Write(known, text),
            ),
    ensures
        native is Some && level <= ConsoleLevel::Warn.code() && message.text() is Some ==> exists|
            known: ConsoleLevel,
            text: &str,
        | #[trigger]
            call_ensures(T::write, (native->0, known, text), ())
                && known.code() == level
                && Some(text@) == message.text(),
{
    if let Some(native) = native {
        let enter = |known: ConsoleLevel, text: &str|
            requires
                native.expects(ConsoleCall::Write(known, text@)),
            ensures
                call_ensures(T::write, (native, known, text), ()),
        {
            native.write(known, text);
        };
        enter_console(level, message, enter);
    }
}

/// Distinct levels are spelled by distinct numbers, and every level's number
/// is among those that spell a level.
pub proof fn console_codes_are_distinct(a: ConsoleLevel, b: ConsoleLevel)
    ensures
        a.code() == b.code() <==> a == b,
        a.code() <= ConsoleLevel::Warn.code(),
{
}

/// Each level has its own place among the six numbers of the ABI.
pub proof fn console_codes_are_fixed(level: ConsoleLevel)
    ensures
        level is Debug <==> level.code() == 0,
        level is Error <==> level.code() == 1,
        level is Info <==> level.code() == 2,
        level is Log <==> level.code() == 3,
        level is Trace <==> level.code() == 4,
        level is Warn <==> level.code() == 5,
{
}

} // verus!
