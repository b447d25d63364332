use servo_v8::abi::{
    SCRIPT_COMPILED, SCRIPT_COMPILE_THROWN, SCRIPT_RUN_COMPLETED, SCRIPT_RUN_TERMINATED,
    SCRIPT_RUN_THROWN,
};
use servo_v8::interrupt::request_termination;
use servo_v8::runtime::CreateReply;
use servo_v8::script::{
    absorb_job_error, checkpoint_outcome, compile_outcome, fresh_compile_outcome, fresh_job_error,
    fresh_run_outcome, job_error, reply_bool, reply_value, run_outcome, script_exception,
    CallReply, JobErrorStep, RawJobError, RawScriptException,
};
use servo_v8::text::{fresh_error_buffer, ErrorBuffer};
use servo_v8::{
    InterruptHandle, JobError, Options, RealmId, Runtime, ScriptCompileOutcome, ScriptException,
    ScriptId, ScriptRunOutcome, TimerCallbackId,
};
use std::cell::{Cell, RefCell};

const RAW: usize = 0xbeef;

fn write(buffer: &mut ErrorBuffer, text: &str) {
    buffer.data[..text.len()].copy_from_slice(text.as_bytes());
    buffer.length = text.len();
}

fn buffer(text: &str) -> ErrorBuffer {
    let mut buffer = fresh_error_buffer();
    write(&mut buffer, text);
    buffer
}

fn is_fresh(buffer: &ErrorBuffer) -> bool {
    buffer.length == 0 && buffer.capacity == 2048 && buffer.data.iter().all(|byte| *byte == 0)
}

fn success<R>(result: R) -> CallReply<R> {
    CallReply {
        succeeded: 1,
        result,
        error: fresh_error_buffer(),
    }
}

fn failure<R>(result: R, message: &str) -> CallReply<R> {
    CallReply {
        succeeded: 0,
        result,
        error: buffer(message),
    }
}

fn fill(raw: &mut RawScriptException, message: &str, line_number: u32) {
    write(&mut raw.message, message);
    write(&mut raw.resource_name, "boom.js");
    write(&mut raw.stack, "Error: boom\n    at boom.js");
    raw.line_number = line_number;
    raw.column_number = 4;
}

fn exception(message: &str, line_number: u32) -> ScriptException {
    ScriptException {
        message: message.to_owned(),
        resource_name: "boom.js".to_owned(),
        stack: "Error: boom\n    at boom.js".to_owned(),
        line_number,
        column_number: 4,
    }
}

fn runtime() -> Runtime {
    let created = Runtime::new(Options::default(), 42, |_, error| CreateReply { raw: RAW, error });
    match created {
        Ok(runtime) => runtime,
        Err(error) => panic!("{}", error.to_string()),
    }
}

fn message<R>(result: Result<R, servo_v8::Error>) -> String {
    match result {
        Ok(_) => panic!("the call unexpectedly succeeded"),
        Err(error) => error.to_string(),
    }
}

#[test]
fn runtimes_need_the_same_abi() {
    let result = Runtime::new(Options::default(), 41, |_, _| panic!("must not be created"));
    assert_eq!(
        message(result),
        "Servo V8 ABI mismatch: Rust expects 42, C++ provides 41"
    );
    let result = Runtime::new(Options::default(), 0, |_, _| panic!("must not be created"));
    assert_eq!(
        message(result),
        "Servo V8 ABI mismatch: Rust expects 42, C++ provides 0"
    );
    let result = Runtime::new(Options::default(), u32::MAX, |_, _| panic!("must not be created"));
    assert_eq!(
        message(result),
        "Servo V8 ABI mismatch: Rust expects 42, C++ provides 4294967295"
    );
}

#[test]
fn runtimes_are_created_with_their_options() {
    let options = Options {
        enable_turbolev: 0,
        enable_turbolev_future: 1,
        expose_gc: 1,
    };
    let result = Runtime::new(options, 42, |given, error| {
        assert_eq!(given, options);
        assert!(is_fresh(&error));
        CreateReply {
            raw: 0,
            error: buffer("out of memory"),
        }
    });
    assert_eq!(message(result), "out of memory");
    let mut runtime = runtime();
    let seen = Cell::new(0);
    runtime.low_memory_notification(|raw| seen.set(raw));
    assert_eq!(seen.get(), RAW);
    runtime.collect_garbage_for_testing(|raw| seen.set(raw + 1));
    assert_eq!(seen.get(), RAW + 1);
}

#[test]
fn interrupt_requests_reach_the_owner_until_it_is_released() {
    let runtime = runtime();
    let handle = runtime.interrupt_handle();
    let other = handle.clone();
    let asked = RefCell::new(Vec::new());
    assert!(handle.terminate_execution(|raw| asked.borrow_mut().push(raw)));
    assert!(other.terminate_execution(|raw| asked.borrow_mut().push(raw)));
    assert_eq!(*asked.borrow(), [RAW, RAW]);
    let deleted = RefCell::new(Vec::new());
    runtime.release(|raw| {
        assert!(!handle.terminate_execution(|_| panic!("the runtime is going away")));
        deleted.borrow_mut().push(raw);
    });
    assert_eq!(*deleted.borrow(), [RAW]);
    assert!(!handle.terminate_execution(|_| panic!("the runtime is gone")));
    assert!(!other.terminate_execution(|_| panic!("the runtime is gone")));
    assert!(!other.clone().terminate_execution(|_| panic!("the runtime is gone")));
}

#[test]
fn handles_of_two_runtimes_are_independent() {
    let first = runtime();
    let created = Runtime::new(Options::default(), 42, |_, error| CreateReply { raw: 7, error });
    let Ok(second) = created else {
        panic!("the engine created a runtime");
    };
    let (first_handle, second_handle) = (first.interrupt_handle(), second.interrupt_handle());
    first.release(|_| {});
    let asked = Cell::new(0);
    assert!(!first_handle.terminate_execution(|raw| asked.set(raw)));
    assert!(second_handle.terminate_execution(|raw| asked.set(raw)));
    assert_eq!(asked.get(), 7);
    second.release(|_| {});
    assert!(!second_handle.terminate_execution(|raw| asked.set(raw)));
}

#[test]
fn interrupt_handles_cross_threads() {
    fn crosses<T: Clone + Send + Sync + 'static>(_: &T) {}
    let runtime = runtime();
    crosses::<InterruptHandle>(&runtime.interrupt_handle());
    runtime.release(|_| {});
}

#[test]
fn only_a_live_address_is_asked_to_terminate() {
    let asked = Cell::new(0);
    assert!(!request_termination(0, |raw| asked.set(raw)));
    assert_eq!(asked.get(), 0);
    assert!(request_termination(7, |raw| asked.set(raw)));
    assert_eq!(asked.get(), 7);
}

#[test]
fn realms_are_created_and_destroyed() {
    let mut runtime = runtime();
    let realm = runtime.create_realm(|raw, initial, error| {
        assert_eq!((raw, initial), (RAW, RealmId(0)));
        assert!(is_fresh(&error));
        success(RealmId(3))
    });
    assert_eq!(realm.unwrap(), RealmId(3));
    let failed = runtime.create_realm(|_, _, _| failure(RealmId(9), "no more realms"));
    assert_eq!(message(failed), "no more realms");
    let destroyed = runtime.destroy_realm(RealmId(3), |raw, realm, _| {
        assert_eq!((raw, realm), (RAW, RealmId(3)));
        success(())
    });
    assert!(destroyed.is_ok());
    let failed = runtime.destroy_realm(RealmId(3), |_, _, _| {
        failure((), "unknown or destroyed Servo V8 realm")
    });
    assert_eq!(message(failed), "unknown or destroyed Servo V8 realm");
}

#[test]
fn boolean_replies_are_true_unless_zero() {
    let mut runtime = runtime();
    for (byte, expected) in [(0, false), (1, true), (2, true), (255, true)] {
        assert_eq!(reply_bool(success(byte)).unwrap(), expected);
        let read = runtime.eval_bool("1 < 2", |raw, source, initial, error| {
            assert_eq!((raw, source, initial), (RAW, "1 < 2", 0));
            assert!(is_fresh(&error));
            success(byte)
        });
        assert_eq!(read.unwrap(), expected);
        let realm = RealmId(4);
        let read = runtime.eval_bool_in_realm(realm, "x", |raw, realm, source, initial, _| {
            assert_eq!((raw, realm, source, initial), (RAW, RealmId(4), "x", 0));
            success(byte)
        });
        assert_eq!(read.unwrap(), expected);
        let read = runtime.document_hidden(realm, |raw, realm, initial, _| {
            assert_eq!((raw, realm, initial), (RAW, RealmId(4), 0));
            success(byte)
        });
        assert_eq!(read.unwrap(), expected);
    }
    assert_eq!(message(runtime.eval_bool("x", |_, _, _, _| failure(1, "threw"))), "threw");
    assert_eq!(message(reply_bool(failure(1, "threw"))), "threw");
}

#[test]
fn values_are_returned_as_replied() {
    let mut runtime = runtime();
    let read = runtime.eval_i64("6 * 7", |raw, source, initial, _| {
        assert_eq!((raw, source, initial), (RAW, "6 * 7", 0));
        success(-42)
    });
    assert_eq!(read.unwrap(), -42);
    let size = runtime.wrapper_cache_size_for_testing(RealmId(1), |raw, realm, initial, _| {
        assert_eq!((raw, realm, initial), (RAW, RealmId(1), 0));
        success(5)
    });
    assert_eq!(size.unwrap(), 5);
    assert_eq!(reply_value(success("kept")).unwrap(), "kept");
    assert_eq!(message(reply_value(failure("lost", "failed"))), "failed");
    let reply = CallReply {
        succeeded: -1,
        result: 3,
        error: buffer("not read"),
    };
    assert_eq!(reply_value(reply).unwrap(), 3);
}

#[test]
fn plain_compilations_pass_their_arguments() {
    let mut runtime = runtime();
    let compiled = runtime.compile("source", "name.js", 9, |raw, source, name, line, error| {
        assert_eq!((raw, source, name, line), (RAW, "source", "name.js", 9));
        assert!(is_fresh(&error));
        success(())
    });
    assert!(compiled.is_ok());
    let failed = runtime.compile_in_realm(
        RealmId(2),
        "function syntax error {",
        "invalid.js",
        1,
        |raw, realm, source, name, line, _| {
            assert_eq!((raw, realm), (RAW, RealmId(2)));
            assert_eq!((source, name, line), ("function syntax error {", "invalid.js", 1));
            failure((), "SyntaxError")
        },
    );
    assert_eq!(message(failed), "SyntaxError");
}

#[test]
fn retained_compilations_read_each_status() {
    let mut runtime = runtime();
    let compiled = runtime.compile_script_in_realm(
        RealmId(2),
        "source",
        "name.js",
        7,
        |raw, realm, source, name, line, mut outcome, error| {
            assert_eq!((raw, realm, source), (RAW, RealmId(2), "source"));
            assert_eq!((name, line), ("name.js", 7));
            assert_eq!((outcome.status, outcome.script_id), (SCRIPT_COMPILED, ScriptId(0)));
            assert!(is_fresh(&outcome.exception.message));
            assert!(is_fresh(&error));
            outcome.script_id = ScriptId(11);
            success(outcome)
        },
    );
    assert_eq!(compiled.unwrap(), ScriptCompileOutcome::Compiled(ScriptId(11)));

    let mut thrown = fresh_compile_outcome();
    thrown.status = SCRIPT_COMPILE_THROWN;
    fill(&mut thrown.exception, "SyntaxError: boom", 3);
    assert_eq!(
        compile_outcome(success(thrown)).unwrap(),
        ScriptCompileOutcome::ParseError(exception("SyntaxError: boom", 3))
    );

    let mut unknown = fresh_compile_outcome();
    unknown.status = 2;
    assert_eq!(
        message(compile_outcome(success(unknown))),
        "V8 returned unknown classic-script compile status 2"
    );
    assert_eq!(
        message(compile_outcome(failure(fresh_compile_outcome(), "no such realm"))),
        "no such realm"
    );
}

#[test]
fn runs_read_each_status() {
    assert_eq!(
        run_outcome(success(fresh_run_outcome()), "unknown ").unwrap(),
        ScriptRunOutcome::Completed
    );
    let mut thrown = fresh_run_outcome();
    thrown.status = SCRIPT_RUN_THROWN;
    fill(&mut thrown.exception, "Uncaught Error: retained boom", 12);
    assert_eq!(
        run_outcome(success(thrown), "unknown ").unwrap(),
        ScriptRunOutcome::Thrown(exception("Uncaught Error: retained boom", 12))
    );
    let mut terminated = fresh_run_outcome();
    terminated.status = SCRIPT_RUN_TERMINATED;
    assert_eq!(
        run_outcome(success(terminated), "unknown ").unwrap(),
        ScriptRunOutcome::Terminated
    );
    let mut failed = fresh_run_outcome();
    failed.status = SCRIPT_RUN_TERMINATED;
    assert_eq!(message(run_outcome(failure(failed, "refused"), "unknown ")), "refused");
    for status in [3, 10, 909, u32::MAX] {
        let mut unknown = fresh_run_outcome();
        unknown.status = status;
        assert_eq!(
            message(run_outcome(success(unknown), "unknown ")),
            format!("unknown {status}")
        );
    }
}

#[test]
fn scripts_run_with_and_without_a_context() {
    let mut runtime = runtime();
    let (realm, script) = (RealmId(2), ScriptId(8));
    let run = runtime.run_script_in_realm(
        realm,
        script,
        |raw, realm, script, context, outcome, error| {
            assert_eq!((raw, realm, script, context), (RAW, RealmId(2), ScriptId(8), 0));
            assert_eq!(outcome.status, SCRIPT_RUN_COMPLETED);
            assert!(is_fresh(&error));
            success(outcome)
        },
    );
    assert_eq!(run.unwrap(), ScriptRunOutcome::Completed);
    let run = runtime.run_script_in_realm_with_host_context(
        realm,
        script,
        0x77,
        |_, _, _, context, mut outcome, _| {
            assert_eq!(context, 0x77);
            outcome.status = 12;
            success(outcome)
        },
    );
    assert_eq!(message(run), "V8 returned unknown classic-script run status 12");
    let discarded = runtime.discard_script_in_realm(realm, script, |raw, realm, script, _| {
        assert_eq!((raw, realm, script), (RAW, RealmId(2), ScriptId(8)));
        failure((), "unknown or consumed Servo V8 script")
    });
    assert_eq!(message(discarded), "unknown or consumed Servo V8 script");
}

#[test]
fn checkpoints_run_with_and_without_a_context() {
    let mut runtime = runtime();
    let drained = runtime.perform_microtask_checkpoint(|raw, context, mut outcome, _| {
        assert_eq!((raw, context), (RAW, 0));
        outcome.status = SCRIPT_RUN_TERMINATED;
        success(outcome)
    });
    assert_eq!(drained.unwrap(), ScriptRunOutcome::Terminated);
    let drained =
        runtime.perform_microtask_checkpoint_with_host_context(0x78, |_, context, mut outcome, _| {
            assert_eq!(context, 0x78);
            outcome.status = 30;
            success(outcome)
        });
    assert_eq!(message(drained), "V8 returned unknown microtask checkpoint status 30");
}

#[test]
fn checkpoints_report_only_termination() {
    for (status, expected) in [
        (SCRIPT_RUN_COMPLETED, ScriptRunOutcome::Completed),
        (SCRIPT_RUN_TERMINATED, ScriptRunOutcome::Terminated),
    ] {
        let mut outcome = fresh_run_outcome();
        outcome.status = status;
        assert_eq!(checkpoint_outcome(success(outcome)).unwrap(), expected);
    }
    for status in [SCRIPT_RUN_THROWN, 3, u32::MAX] {
        let mut outcome = fresh_run_outcome();
        outcome.status = status;
        fill(&mut outcome.exception, "job boom", 1);
        assert_eq!(
            message(checkpoint_outcome(success(outcome))),
            format!("V8 returned unknown microtask checkpoint status {status}")
        );
    }
    let mut outcome = fresh_run_outcome();
    outcome.status = SCRIPT_RUN_TERMINATED;
    assert_eq!(message(checkpoint_outcome(failure(outcome, "re-entered"))), "re-entered");
    let mut runtime = runtime();
    let drained = runtime.perform_microtask_checkpoint(|_, _, mut outcome, _| {
        outcome.status = SCRIPT_RUN_THROWN;
        success(outcome)
    });
    assert_eq!(message(drained), "V8 returned unknown microtask checkpoint status 1");
}

#[test]
fn timer_callbacks_run_with_and_without_a_context() {
    let mut runtime = runtime();
    let (realm, callback) = (RealmId(2), TimerCallbackId(6));
    let run = runtime.run_timer_callback_in_realm(
        realm,
        callback,
        |raw, realm, id, context, mut outcome, _| {
            assert_eq!((raw, realm, id, context), (RAW, RealmId(2), TimerCallbackId(6), 0));
            outcome.status = SCRIPT_RUN_THROWN;
            fill(&mut outcome.exception, "timer boom", 1);
            success(outcome)
        },
    );
    assert_eq!(run.unwrap(), ScriptRunOutcome::Thrown(exception("timer boom", 1)));
    let run = runtime.run_timer_callback_in_realm_with_host_context(
        realm,
        callback,
        0x79,
        |_, _, _, context, mut outcome, _| {
            assert_eq!(context, 0x79);
            outcome.status = 4;
            success(outcome)
        },
    );
    assert_eq!(message(run), "V8 returned unknown timer callback run status 4");
    let cleared = runtime.clear_timer_callback_in_realm(realm, callback, |raw, realm, id, _| {
        assert_eq!((raw, realm, id), (RAW, RealmId(2), TimerCallbackId(6)));
        success(())
    });
    assert!(cleared.is_ok());
}

#[test]
fn exceptions_keep_every_field() {
    let mut raw = fresh_run_outcome().exception;
    fill(&mut raw, "message", 21);
    assert_eq!(script_exception(&raw), exception("message", 21));
    raw.message.length = usize::MAX;
    assert_eq!(script_exception(&raw).message.len(), 2047);
}

#[test]
fn job_errors_name_their_realm() {
    let mut raw = fresh_job_error();
    fill(&mut raw.exception, "job boom", 2);
    assert_eq!(
        job_error(&raw),
        JobError {
            realm_id: None,
            exception: exception("job boom", 2),
        }
    );
    raw.realm_id = RealmId(9);
    assert_eq!(job_error(&raw).realm_id, Some(RealmId(9)));
}

fn pending(realm_id: u64, line_number: u32) -> RawJobError {
    let mut job = fresh_job_error();
    job.has_error = 1;
    job.realm_id = RealmId(realm_id);
    fill(&mut job.exception, "job boom", line_number);
    job
}

#[test]
fn pending_job_errors_come_oldest_first() {
    let mut runtime = runtime();
    let pulls = Cell::new(0u32);
    let queue = vec![pending(2, 3), pending(1, 2), pending(0, 1)];
    let (errors, queue) = runtime.take_pending_job_errors(
        queue,
        |raw, mut queue: Vec<RawJobError>, job: RawJobError, error| {
            assert_eq!(raw, RAW);
            assert_eq!((job.realm_id, job.has_error), (RealmId(0), 0));
            assert!(is_fresh(&job.exception.message));
            assert!(is_fresh(&error));
            pulls.set(pulls.get() + 1);
            let next = queue.pop().unwrap_or(job);
            (queue, success(next))
        },
    );
    assert_eq!(
        errors.unwrap(),
        [
            JobError {
                realm_id: None,
                exception: exception("job boom", 1),
            },
            JobError {
                realm_id: Some(RealmId(1)),
                exception: exception("job boom", 2),
            },
            JobError {
                realm_id: Some(RealmId(2)),
                exception: exception("job boom", 3),
            },
        ]
    );
    assert_eq!(pulls.get(), 4);
    assert!(queue.is_empty());
    let (none, ()) = runtime.take_pending_job_errors((), |_, (), job, _| ((), success(job)));
    assert_eq!(none.unwrap(), []);
}

#[test]
fn a_second_collection_is_empty() {
    fn pull(
        _: usize,
        mut queue: Vec<RawJobError>,
        job: RawJobError,
        _: ErrorBuffer,
    ) -> (Vec<RawJobError>, CallReply<RawJobError>) {
        let next = queue.pop().unwrap_or(job);
        (queue, success(next))
    }
    let mut runtime = runtime();
    let (first, queue) = runtime.take_pending_job_errors(vec![pending(1, 2), pending(1, 1)], pull);
    assert_eq!(first.unwrap().len(), 2);
    let (second, queue) = runtime.take_pending_job_errors(queue, pull);
    assert_eq!(second.unwrap(), []);
    assert!(queue.is_empty());
}

#[test]
fn a_failing_pull_ends_the_collection() {
    let mut runtime = runtime();
    let (errors, pulls) = runtime.take_pending_job_errors(0u32, |_, pulls, mut job, _| {
        job.has_error = 1;
        if pulls == 1 {
            (2, failure(job, "re-entered from a Rust host callback"))
        } else {
            (pulls + 1, success(job))
        }
    });
    assert_eq!(message(errors), "re-entered from a Rust host callback");
    assert_eq!(pulls, 2);
}

#[test]
fn each_pull_is_absorbed_behind_the_errors_so_far() {
    let mut errors = Vec::new();
    for line in 1..4 {
        errors = match absorb_job_error(errors, success(pending(9, line))) {
            JobErrorStep::More(errors) => errors,
            JobErrorStep::Done(_) => panic!("an error was pending"),
        };
    }
    let lines: Vec<u32> = errors.iter().map(|error| error.exception.line_number).collect();
    assert_eq!(lines, [1, 2, 3]);
    let JobErrorStep::Done(result) = absorb_job_error(errors, success(fresh_job_error())) else {
        panic!("nothing was pending");
    };
    let errors = result.unwrap();
    assert_eq!(errors.len(), 3);
    let JobErrorStep::Done(result) = absorb_job_error(errors, failure(pending(9, 4), "refused"))
    else {
        panic!("the pull failed");
    };
    assert_eq!(message(result), "refused");
}

#[test]
fn type_level_hosts_install_or_fail() {
    let mut runtime = runtime();
    assert!(runtime
        .install_element_host(|raw, error| {
            assert_eq!(raw, RAW);
            assert!(is_fresh(&error));
            success(())
        })
        .is_ok());
    assert_eq!(
        message(runtime.install_element_host(|_, _| failure((), "installs once"))),
        "installs once"
    );
    assert!(runtime.install_node_list_host(|_, _| success(())).is_ok());
    assert_eq!(
        message(runtime.install_node_list_host(|_, _| failure((), "vtable is incomplete"))),
        "vtable is incomplete"
    );
    assert!(runtime.install_html_collection_host(|_, _| success(())).is_ok());
    assert_eq!(
        message(runtime.install_html_collection_host(|_, _| failure((), "installs once"))),
        "installs once"
    );
    assert!(runtime.install_engine_binding_smoke(|_, _| success(())).is_ok());
    assert_eq!(
        message(runtime.install_engine_binding_smoke(|_, _| failure((), "smoke"))),
        "smoke"
    );
}

#[test]
fn realm_hosts_are_released_exactly_on_failure() {
    let mut runtime = runtime();
    let released = RefCell::new(Vec::new());
    let release = |native: usize| released.borrow_mut().push(native);
    let realm = RealmId(2);
    assert!(runtime
        .install_document_host(
            realm,
            0x10,
            |raw, realm, native, error| {
                assert_eq!((raw, realm, native), (RAW, RealmId(2), 0x10));
                assert!(is_fresh(&error));
                success(())
            },
            release,
        )
        .is_ok());
    assert!(runtime
        .install_timer_host(realm, 0x20, |_, _, _, _| success(()), release)
        .is_ok());
    assert!(runtime
        .install_console_host(realm, 0x30, |_, _, _, _| success(()), release)
        .is_ok());
    assert!(released.borrow().is_empty());

    let failed = runtime.install_document_host(
        realm,
        0x11,
        |_, _, _, _| failure((), "no document"),
        release,
    );
    assert_eq!(message(failed), "no document");
    let failed =
        runtime.install_timer_host(realm, 0x21, |_, _, _, _| failure((), "no timer"), release);
    assert_eq!(message(failed), "no timer");
    let failed =
        runtime.install_console_host(realm, 0x31, |_, _, _, _| failure((), "no console"), release);
    assert_eq!(message(failed), "no console");
    assert_eq!(*released.borrow(), [0x11, 0x21, 0x31]);
}
