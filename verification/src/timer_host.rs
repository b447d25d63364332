//! The callbacks behind the timer functions.
//!
//! The host context is handed through as it came, zero included. A malformed
//! call answers zero and does not enter the host.

use crate::abi::TimerCallbackId;
use crate::bindings::TimerHostBinding;
use crate::calls::TimerCall;
use crate::text::{element_host_utf8, Utf8Argument};
use vstd::prelude::*;

verus! {

/// Decides a scheduling: the host is entered once, with the repeat flag that was
/// spelled, or not at all.
pub fn enter_schedule<F: FnOnce(bool) -> Option<i32>>(
    is_interval: u8,
    handle: Option<&mut i32>,
    enter: F,
) -> (status: u8)
    requires
        is_interval <= 1 && handle is Some ==> call_requires(enter, (is_interval == 1,)),
    ensures
        handle is None ==> status == 0,
        is_interval > 1 ==> status == 0 && (handle matches Some(handle) ==> *final(handle)
            == *handle),
        is_interval <= 1 ==> (handle matches Some(handle) ==> exists|
            repeats: bool,
            scheduled: Option<i32>,
        | #[trigger]
            call_ensures(enter, (repeats,), scheduled)
                && repeats == (is_interval == 1)
                && match scheduled {
                Some(value) => status == 1 && *final(handle) == value,
                None => status == 0 && *final(handle) == *handle,
            }),
{
    let Some(handle) = handle else {
        return 0;
    };
    if is_interval > 1 {
        return 0;
    }
    let Some(value) = enter(is_interval != 0) else {
        return 0;
    };
    *handle = value;
    1
}

/// Schedules a retained function. The answer is one, with the timer's handle
/// written, exactly when the host gave it a handle.
pub fn timer_host_schedule_function<T: TimerHostBinding>(
    native: Option<&T>,
    host_context: usize,
    callback_id: TimerCallbackId,
    timeout_ms: i32,
    is_interval: u8,
    handle: Option<&mut i32>,
) -> (status: u8)
    requires
        native is Some && handle is Some && is_interval <= 1 ==> native->0.expects(
            TimerCall::ScheduleFunction(host_context, callback_id, timeout_ms, is_interval == 1),
        ),
    ensures
        handle is None ==> status == 0,
        !(native is Some && is_interval <= 1)
            ==> status == 0 && (handle matches Some(handle) ==> *final(handle) == *handle),
        native is Some && is_interval <= 1 ==> (handle matches Some(handle) ==> exists|
            repeats: bool,
            scheduled: Option<i32>,
        | #[trigger]
            call_ensures(
                T::schedule_function,
                (native->0, host_context, callback_id, timeout_ms, repeats),
                scheduled,
            )
                && repeats == (is_interval == 1)
                && match scheduled {
                Some(value) => status == 1 && *final(handle) == value,
                None => status == 0 && *final(handle) == *handle,
            }),
{
    let Some(native) = native else {
        return 0;
    };
    let enter = |repeats: bool| -> (scheduled: Option<i32>)
        requires
            native.expects(
                TimerCall::ScheduleFunction(host_context, callback_id, timeout_ms, repeats),
            ),
        ensures
            call_ensures(
                T::schedule_function,
                (native, host_context, callback_id, timeout_ms, repeats),
                scheduled,
            ),
    {
        native.schedule_function(host_context, callback_id, timeout_ms, repeats)
    };
    enter_schedule(is_interval, handle, enter)
}

/// Schedules source text. The answer is one, with the timer's handle written,
/// exactly when the host gave it a handle.
pub fn timer_host_schedule_string<T: TimerHostBinding>(
    native: Option<&T>,
    host_context: usize,
    source: Utf8Argument<'_>,
    timeout_ms: i32,
    is_interval: u8,
    handle: Option<&mut i32>,
) -> (status: u8)
    requires
        native is Some && handle is Some && is_interval <= 1 && source.text() is Some
            ==> native->0.expects(
            TimerCall::ScheduleString(
                host_context,
                source.text()->0,
                timeout_ms,
                is_interval == 1,
            ),
        ),
    ensures
        handle is None ==> status == 0,
        !(native is Some && is_interval <= 1 && source.text() is Some)
            ==> status == 0 && (handle matches Some(handle) ==> *final(handle) == *handle),
        native is Some && is_interval <= 1 && source.text() is Some
            ==> (handle matches Some(handle) ==> exists|
            text: &str,
            repeats: bool,
            scheduled: Option<i32>,
        | #[trigger]
            call_ensures(
                T::schedule_string,
                (native->0, host_context, text, timeout_ms, repeats),
                scheduled,
            )
                && Some(text@) == source.text()
                && repeats == (is_interval == 1)
                && match scheduled {
                Some(value) => status == 1 && *final(handle) == value,
                None => status == 0 && *final(handle) == *handle,
            }),
{
    let Some(native) = native else {
        return 0;
    };
    let Some(text) = element_host_utf8(source) else {
        return 0;
    };
    let enter = |repeats: bool| -> (scheduled: Option<i32>)
        requires
            native.expects(TimerCall::ScheduleString(host_context, text@, timeout_ms, repeats)),
        ensures
            call_ensures(
                T::schedule_string,
                (native, host_context, text, timeout_ms, repeats),
                scheduled,
            ),
    {
        native.schedule_string(host_context, text, timeout_ms, repeats)
    };
    enter_schedule(is_interval, handle, enter)
}

/// Clears a timer.
pub fn timer_host_clear<T: TimerHostBinding>(native: Option<&T>, handle: i32)
    requires
        native is Some ==> native->0.expects(TimerCall::Clear(handle)),
    ensures
        native matches Some(native) ==> call_ensures(T::clear, (native, handle), ()),
{
    if let Some(native) = native {
        native.clear(handle);
    }
}

} // verus!
