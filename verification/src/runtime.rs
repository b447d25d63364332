//! The engine runtime: which call each operation makes, with what arguments,
//! and how its reply is read.
//!
//! A method takes the engine function behind it as a closure over plain values.
//! The closure receives the runtime's address, the arguments in ABI order, and
//! the output and error storage as it is lent, and returns what the call left
//! in that storage.

use crate::abi::{Options, RealmId, ScriptId, TimerCallbackId, ABI_VERSION};
use crate::interrupt;
use crate::interrupt::{ClosingRight, InterruptState, OwnedBy};
use crate::script::{
    absorb_job_error, checkpoint_outcome, compile_outcome, fresh_compile_outcome, fresh_job_error,
    fresh_run_outcome, reply_bool, reply_value, run_outcome, CallReply, JobError, JobErrorStep,
    RawJobError, RawScriptCompileOutcome, RawScriptRunOutcome, ScriptCompileOutcome,
    ScriptRunOutcome,
};
use crate::text;
use crate::text::{append_decimal, error_from, fresh_error_buffer, Error, ErrorBuffer};
use std::marker::PhantomData;
use std::rc::Rc;
use std::sync::Arc;
use vstd::prelude::*;
use vstd::rwlock::{RwLock, WriteHandle};
use vstd::string::StringExecFns;

verus! {

/// A cloneable cross-thread request handle that can terminate active V8 code.
///
/// It does not make `Runtime` transferable. It exposes only V8's documented
/// thread-safe termination request and becomes inert when the runtime is
/// released.
pub struct InterruptHandle {
    state: Arc<InterruptState>,
}

impl Clone for InterruptHandle {
    fn clone(&self) -> (handle: Self)
        ensures
            handle == *self,
    {
        InterruptHandle { state: Arc::clone(&self.state) }
    }
}

impl InterruptHandle {
    /// The address of the runtime this handle was made for.
    pub closed spec fn owner(self) -> usize {
        self.state.owner()
    }

    /// The lock that the handle shares with its runtime.
    pub closed spec fn lock(self) -> RwLock<usize, OwnedBy> {
        self.state.lock()
    }

    /// `sent` is the answer to what the shared lock held: the owner's address, to
    /// which the request was made under that lock, or zero. The lock holds it
    /// again afterwards.
    pub closed spec fn answered<F: FnOnce(usize)>(self, request: F, sent: bool) -> bool {
        self.state.answered(request, sent)
    }

    /// The state behind the handle was made open: until it is closed, the handle
    /// finds its owner's address in it.
    pub closed spec fn opened(self) -> bool {
        self.state.opened()
    }

    /// The state behind the handle was cleared: its lock was taken and given back
    /// holding zero.
    pub closed spec fn cleared(self) -> bool {
        self.state.cleared()
    }

    /// The handle and the runtime hold one interrupt state, so that closing the
    /// runtime's closes the handle's.
    pub closed spec fn interrupts(self, runtime: Runtime) -> bool {
        self.state == runtime.interrupt_state
    }

    /// Requests termination if the owning runtime is still live. The runtime
    /// cannot be deleted while the request is being made, and no other runtime
    /// is ever asked. The answer says what was found under the lock: the request
    /// is made unless the runtime was released, and when that happens is up to
    /// the thread that owns it.
    pub fn terminate_execution<F: FnOnce(usize)>(&self, request: F) -> (sent: bool)
        requires
            call_requires(request, (self.owner(),)),
        ensures
            self.answered(request, sent),
            sent ==> call_ensures(request, (self.owner(),), ()),
            !sent ==> interrupt::withdrawn(self.owner()),
    {
        self.state.request(request)
    }
}

/// One V8 isolate and its unified heap.
///
/// A runtime is confined to the thread that made it: `Rc` is neither `Send` nor
/// `Sync` and costs no storage here.
pub struct Runtime {
    raw: usize,
    interrupt_state: Arc<InterruptState>,
    closing_right: ClosingRight,
    _thread_confined: PhantomData<Rc<()>>,
}

/// What the engine's constructor left behind: the address of the runtime, or
/// zero and an error.
pub struct CreateReply {
    pub raw: usize,
    pub error: ErrorBuffer,
}

/// The message for an engine that speaks another version of the ABI.
pub open spec fn abi_mismatch(actual_abi: u32) -> Seq<char> {
    "Servo V8 ABI mismatch: Rust expects "@ + text::decimal(ABI_VERSION as nat)
        + ", C++ provides "@ + text::decimal(actual_abi as nat)
}

fn abi_mismatch_error(actual_abi: u32) -> (error: Error)
    ensures
        error@ == abi_mismatch(actual_abi),
{
    let mut message = "Servo V8 ABI mismatch: Rust expects ".to_string();
    append_decimal(&mut message, ABI_VERSION);
    message.append(", C++ provides ");
    append_decimal(&mut message, actual_abi);
    Error::new(message)
}

/// One pull for a pending job error, with storage as it is first lent. It finds
/// the engine in the state `before` and leaves it in the state `after`.
pub open spec fn pull<
    E,
    F: Fn(usize, E, RawJobError, ErrorBuffer) -> (E, CallReply<RawJobError>),
>(take: F, runtime: usize, before: E, after: E, reply: CallReply<RawJobError>) -> bool {
    exists|raw: RawJobError, error: ErrorBuffer|
        raw.fresh() && error.fresh() && #[trigger] call_ensures(
            take,
            (runtime, before, raw, error),
            (after, reply),
        )
}

/// The replies came from one pull after the other: each pull found the engine
/// as the one before it had left it, and the first found it in `states[0]`.
pub open spec fn pulled<
    E,
    F: Fn(usize, E, RawJobError, ErrorBuffer) -> (E, CallReply<RawJobError>),
>(take: F, runtime: usize, states: Seq<E>, replies: Seq<CallReply<RawJobError>>) -> bool {
    &&& states.len() == replies.len() + 1
    &&& forall|i: int|
        #![trigger replies[i]]
        0 <= i < replies.len() ==> pull(take, runtime, states[i], states[i + 1], replies[i])
}

/// Every reply delivered an error, and `errors` are their readings in the order
/// in which they were pulled.
pub open spec fn collected(replies: Seq<CallReply<RawJobError>>, errors: Seq<JobError>) -> bool {
    &&& errors.len() == replies.len()
    &&& forall|i: int|
        0 <= i < replies.len() ==> {
            &&& (#[trigger] replies[i]).succeeded != 0
            &&& replies[i].result.has_error != 0
            &&& errors[i].reads(replies[i].result)
        }
}

/// The last reply ended the collection: it failed, and the result is its error;
/// or it had nothing to deliver, and the result is what the earlier replies
/// delivered.
pub open spec fn drained(
    replies: Seq<CallReply<RawJobError>>,
    result: Result<Vec<JobError>, Error>,
) -> bool {
    &&& replies.len() > 0
    &&& match result {
        Ok(errors) => {
            &&& replies.last().succeeded != 0
            &&& replies.last().result.has_error == 0
            &&& collected(replies.drop_last(), errors@)
        },
        Err(error) => {
            &&& replies.last().fails(error)
            &&& exists|errors: Seq<JobError>| #[trigger] collected(replies.drop_last(), errors)
        },
    }
}

impl Runtime {
    /// A runtime has a native runtime, its interrupt handles name it, and the
    /// state it shares with them was made open and is its to close.
    #[verifier::type_invariant]
    spec fn well_formed(self) -> bool {
        &&& self.raw != 0
        &&& self.interrupt_state.owner() == self.raw
        &&& self.interrupt_state.opened()
        &&& self.closing_right.raw() == self.raw
    }

    /// The address of the native runtime.
    pub closed spec fn raw(self) -> usize {
        self.raw
    }

    fn address(&self) -> (address: usize)
        ensures
            address == self.raw(),
    {
        self.raw
    }

    /// Creates a runtime, provided that the engine speaks this ABI; another
    /// engine is not asked to.
    pub fn new<F: FnOnce(Options, ErrorBuffer) -> CreateReply>(
        options: Options,
        actual_abi: u32,
        create: F,
    ) -> (result: Result<Runtime, Error>)
        requires
            actual_abi == ABI_VERSION ==> forall|error: ErrorBuffer|
                error.fresh() ==> #[trigger] call_requires(create, (options, error)),
        ensures
            actual_abi != ABI_VERSION ==> (result matches Err(error) && error@ == abi_mismatch(
                actual_abi,
            )),
            actual_abi == ABI_VERSION ==> exists|error: ErrorBuffer, reply: CreateReply|
                error.fresh() && #[trigger] call_ensures(create, (options, error), reply)
                    && match result {
                    Ok(runtime) => {
                        &&& reply.raw != 0
                        &&& runtime.raw() == reply.raw
                        &&& runtime.handles_opened()
                    },
                    Err(error) => reply.raw == 0 && reply.error.spells(error@),
                },
    {
        if actual_abi != ABI_VERSION {
            return Err(abi_mismatch_error(actual_abi));
        }
        let reply = create(options, fresh_error_buffer());
        if reply.raw == 0 {
            return Err(error_from(&reply.error));
        }
        let (interrupt_state, closing_right) = InterruptState::new(reply.raw);
        Ok(
            Runtime {
                raw: reply.raw,
                interrupt_state: Arc::new(interrupt_state),
                closing_right,
                _thread_confined: PhantomData,
            },
        )
    }

    /// A handle through which another thread can interrupt this runtime.
    pub fn interrupt_handle(&self) -> (handle: InterruptHandle)
        ensures
            handle.interrupts(*self),
            handle.opened(),
            handle.owner() == self.raw(),
    {
        proof {
            use_type_invariant(self);
        }
        InterruptHandle { state: Arc::clone(&self.interrupt_state) }
    }

    /// The state that this runtime shares with its handles was made open: until
    /// it is closed, the handles find the runtime's address in it.
    pub closed spec fn handles_opened(self) -> bool {
        self.interrupt_state.opened()
    }

    /// The state that this runtime shares with its handles has been closed.
    pub closed spec fn handles_closed(self) -> bool {
        call_ensures(InterruptState::close, (&*self.interrupt_state, self.closing_right), ())
    }

    /// Ends the runtime: makes every interrupt handle inert, waiting for a
    /// request in flight, and then deletes the native runtime. The deletion may
    /// rely on the handles being closed.
    pub fn release<F: FnOnce(usize)>(self, delete: F)
        requires
            self.handles_closed() ==> call_requires(delete, (self.raw(),)),
        ensures
            self.handles_closed(),
            interrupt::withdrawn(self.raw()),
            call_ensures(delete, (self.raw(),), ()),
    {
        proof {
            use_type_invariant(&self);
        }
        self.interrupt_state.close(self.closing_right);
        delete(self.raw);
    }

    /// Creates an independent context in this runtime's isolate.
    pub fn create_realm<F>(
        &mut self,
        create: F,
    ) -> (result: Result<RealmId, Error>) where
        F: FnOnce(usize, RealmId, ErrorBuffer) -> CallReply<RealmId>,

        requires
            forall|error: ErrorBuffer|
                error.fresh() ==> #[trigger] call_requires(
                    create,
                    (old(self).raw(), RealmId(0), error),
                ),
        ensures
            *final(self) == *old(self),
            exists|error: ErrorBuffer, reply: CallReply<RealmId>|
                error.fresh() && #[trigger] call_ensures(
                    create,
                    (old(self).raw(), RealmId(0), error),
                    reply,
                ) && reply.reads(result),
    {
        let reply = create(self.address(), RealmId(0), fresh_error_buffer());
        reply_value(reply)
    }

    /// Destroys a realm. Its ID is permanently invalid after this succeeds.
    pub fn destroy_realm<F>(
        &mut self,
        realm_id: RealmId,
        destroy: F,
    ) -> (result: Result<(), Error>) where
        F: FnOnce(usize, RealmId, ErrorBuffer) -> CallReply<()>,

        requires
            forall|error: ErrorBuffer|
                error.fresh() ==> #[trigger] call_requires(
                    destroy,
                    (old(self).raw(), realm_id, error),
                ),
        ensures
            *final(self) == *old(self),
            exists|error: ErrorBuffer, reply: CallReply<()>|
                error.fresh() && #[trigger] call_ensures(
                    destroy,
                    (old(self).raw(), realm_id, error),
                    reply,
                ) && reply.reads(result),
    {
        let reply = destroy(self.address(), realm_id, fresh_error_buffer());
        reply_value(reply)
    }

    /// Evaluates a boolean expression in a selected realm.
    pub fn eval_bool_in_realm<'a, F>(
        &mut self,
        realm_id: RealmId,
        source: &'a str,
        eval: F,
    ) -> (result: Result<bool, Error>) where
        F: FnOnce(usize, RealmId, &'a str, u8, ErrorBuffer) -> CallReply<u8>,

        requires
            forall|error: ErrorBuffer|
                error.fresh() ==> #[trigger] call_requires(
                    eval,
                    (old(self).raw(), realm_id, source, 0u8, error),
                ),
        ensures
            *final(self) == *old(self),
            exists|error: ErrorBuffer, reply: CallReply<u8>|
                error.fresh() && #[trigger] call_ensures(
                    eval,
                    (old(self).raw(), realm_id, source, 0u8, error),
                    reply,
                ) && reply.reads_bool(result),
    {
        let reply = eval(self.address(), realm_id, source, 0u8, fresh_error_buffer());
        reply_bool(reply)
    }

    /// Compiles a classic script in a selected realm without executing it.
    pub fn compile_in_realm<'a, F>(
        &mut self,
        realm_id: RealmId,
        source: &'a str,
        resource_name: &'a str,
        line_number: u32,
        compile: F,
    ) -> (result: Result<(), Error>) where
        F: FnOnce(usize, RealmId, &'a str, &'a str, u32, ErrorBuffer) -> CallReply<()>,

        requires
            forall|error: ErrorBuffer|
                error.fresh() ==> #[trigger] call_requires(
                    compile,
                    (old(self).raw(), realm_id, source, resource_name, line_number, error),
                ),
        ensures
            *final(self) == *old(self),
            exists|error: ErrorBuffer, reply: CallReply<()>|
                error.fresh() && #[trigger] call_ensures(
                    compile,
                    (old(self).raw(), realm_id, source, resource_name, line_number, error),
                    reply,
                ) && reply.reads(result),
    {
        let reply = compile(
            self.address(),
            realm_id,
            source,
            resource_name,
            line_number,
            fresh_error_buffer(),
        );
        reply_value(reply)
    }

    /// Compiles and retains a classic script without executing it.
    pub fn compile_script_in_realm<'a, F>(
        &mut self,
        realm_id: RealmId,
        source: &'a str,
        resource_name: &'a str,
        line_number: u32,
        compile: F,
    ) -> (result: Result<ScriptCompileOutcome, Error>) where
        F: FnOnce(
            usize,
            RealmId,
            &'a str,
            &'a str,
            u32,
            RawScriptCompileOutcome,
            ErrorBuffer,
        ) -> CallReply<RawScriptCompileOutcome>,

        requires
            forall|outcome: RawScriptCompileOutcome, error: ErrorBuffer|
                outcome.fresh() && error.fresh() ==> #[trigger] call_requires(
                    compile,
                    (
                        old(self).raw(),
                        realm_id,
                        source,
                        resource_name,
                        line_number,
                        outcome,
                        error,
                    ),
                ),
        ensures
            *final(self) == *old(self),
            exists|
                outcome: RawScriptCompileOutcome,
                error: ErrorBuffer,
                reply: CallReply<RawScriptCompileOutcome>,
            |
                outcome.fresh() && error.fresh() && #[trigger] call_ensures(
                    compile,
                    (
                        old(self).raw(),
                        realm_id,
                        source,
                        resource_name,
                        line_number,
                        outcome,
                        error,
                    ),
                    reply,
                ) && reply.reads_compile(result),
    {
        let reply = compile(
            self.address(),
            realm_id,
            source,
            resource_name,
            line_number,
            fresh_compile_outcome(),
            fresh_error_buffer(),
        );
        compile_outcome(reply)
    }

    /// Executes and consumes a retained script with one ephemeral host context.
    ///
    /// `host_context` must remain valid for every synchronous native callback made
    /// during this invocation. No binding may retain it.
    pub fn run_script_in_realm_with_host_context<F>(
        &mut self,
        realm_id: RealmId,
        script_id: ScriptId,
        host_context: usize,
        run: F,
    ) -> (result: Result<ScriptRunOutcome, Error>) where
        F: FnOnce(
            usize,
            RealmId,
            ScriptId,
            usize,
            RawScriptRunOutcome,
            ErrorBuffer,
        ) -> CallReply<RawScriptRunOutcome>,

        requires
            forall|outcome: RawScriptRunOutcome, error: ErrorBuffer|
                outcome.fresh() && error.fresh() ==> #[trigger] call_requires(
                    run,
                    (old(self).raw(), realm_id, script_id, host_context, outcome, error),
                ),
        ensures
            *final(self) == *old(self),
            exists|
                outcome: RawScriptRunOutcome,
                error: ErrorBuffer,
                reply: CallReply<RawScriptRunOutcome>,
            |
                outcome.fresh() && error.fresh() && #[trigger] call_ensures(
                    run,
                    (old(self).raw(), realm_id, script_id, host_context, outcome, error),
                    reply,
                ) && reply.reads_run(
                    "V8 returned unknown classic-script run status "@,
                    result,
                ),
    {
        let reply = run(
            self.address(),
            realm_id,
            script_id,
            host_context,
            fresh_run_outcome(),
            fresh_error_buffer(),
        );
        run_outcome(reply, "V8 returned unknown classic-script run status ")
    }

    /// Executes and consumes a retained classic script with no host context, so that
    /// host callbacks that require one fail.
    ///
    /// This does not perform a microtask checkpoint: the embedder's event loop
    /// requests checkpoints at the HTML-defined task boundary.
    pub fn run_script_in_realm<F>(
        &mut self,
        realm_id: RealmId,
        script_id: ScriptId,
        run: F,
    ) -> (result: Result<ScriptRunOutcome, Error>) where
        F: FnOnce(
            usize,
            RealmId,
            ScriptId,
            usize,
            RawScriptRunOutcome,
            ErrorBuffer,
        ) -> CallReply<RawScriptRunOutcome>,

        requires
            forall|outcome: RawScriptRunOutcome, error: ErrorBuffer|
                outcome.fresh() && error.fresh() ==> #[trigger] call_requires(
                    run,
                    (old(self).raw(), realm_id, script_id, 0usize, outcome, error),
                ),
        ensures
            *final(self) == *old(self),
            exists|
                outcome: RawScriptRunOutcome,
                error: ErrorBuffer,
                reply: CallReply<RawScriptRunOutcome>,
            |
                outcome.fresh() && error.fresh() && #[trigger] call_ensures(
                    run,
                    (old(self).raw(), realm_id, script_id, 0usize, outcome, error),
                    reply,
                ) && reply.reads_run(
                    "V8 returned unknown classic-script run status "@,
                    result,
                ),
    {
        self.run_script_in_realm_with_host_context(realm_id, script_id, 0, run)
    }

    /// Drains the isolate's explicit microtask queue with one ephemeral host
    /// context installed on every live realm.
    ///
    /// The queue is isolate-wide because V8 requires contexts that can access each
    /// other synchronously to share one queue.
    ///
    /// Only termination is reported through the return value. A job that throws is
    /// buffered, because one drain can produce many errors; collect them with
    /// `take_pending_job_errors`.
    ///
    /// `host_context` must remain valid for every synchronous native callback made
    /// during the drain. No binding may retain it.
    pub fn perform_microtask_checkpoint_with_host_context<F>(
        &mut self,
        host_context: usize,
        drain: F,
    ) -> (result: Result<ScriptRunOutcome, Error>) where
        F: FnOnce(
            usize,
            usize,
            RawScriptRunOutcome,
            ErrorBuffer,
        ) -> CallReply<RawScriptRunOutcome>,

        requires
            forall|outcome: RawScriptRunOutcome, error: ErrorBuffer|
                outcome.fresh() && error.fresh() ==> #[trigger] call_requires(
                    drain,
                    (old(self).raw(), host_context, outcome, error),
                ),
        ensures
            *final(self) == *old(self),
            exists|
                outcome: RawScriptRunOutcome,
                error: ErrorBuffer,
                reply: CallReply<RawScriptRunOutcome>,
            |
                outcome.fresh() && error.fresh() && #[trigger] call_ensures(
                    drain,
                    (old(self).raw(), host_context, outcome, error),
                    reply,
                ) && reply.reads_checkpoint(result),
    {
        let reply = drain(self.address(), host_context, fresh_run_outcome(), fresh_error_buffer());
        checkpoint_outcome(reply)
    }

    /// Drains the isolate's explicit microtask queue with no host context, so jobs
    /// that call an embedding host fail deterministically.
    pub fn perform_microtask_checkpoint<F>(
        &mut self,
        drain: F,
    ) -> (result: Result<ScriptRunOutcome, Error>) where
        F: FnOnce(
            usize,
            usize,
            RawScriptRunOutcome,
            ErrorBuffer,
        ) -> CallReply<RawScriptRunOutcome>,

        requires
            forall|outcome: RawScriptRunOutcome, error: ErrorBuffer|
                outcome.fresh() && error.fresh() ==> #[trigger] call_requires(
                    drain,
                    (old(self).raw(), 0usize, outcome, error),
                ),
        ensures
            *final(self) == *old(self),
            exists|
                outcome: RawScriptRunOutcome,
                error: ErrorBuffer,
                reply: CallReply<RawScriptRunOutcome>,
            |
                outcome.fresh() && error.fresh() && #[trigger] call_ensures(
                    drain,
                    (old(self).raw(), 0usize, outcome, error),
                    reply,
                ) && reply.reads_checkpoint(result),
    {
        self.perform_microtask_checkpoint_with_host_context(0, drain)
    }

    /// Collects every uncaught error thrown by a microtask job, oldest first.
    ///
    /// V8 catches a throwing job inside its own microtask builtin, reports the
    /// message, and lets execution continue, so these never reach the checkpoint
    /// boundary and must be pulled instead. Each pull takes the oldest error left;
    /// a pull that fails ends the collection, and the errors taken before it are
    /// gone with it.
    ///
    /// `engine` is what the pulls act on. It is handed from each pull to the next
    /// and back to the caller, so that the order of the replies is that of the
    /// pulls; an engine that keeps its state to itself is handed on as `()`.
    pub fn take_pending_job_errors<E, F>(
        &mut self,
        engine: E,
        take: F,
    ) -> (collection: (Result<Vec<JobError>, Error>, E)) where
        F: Fn(usize, E, RawJobError, ErrorBuffer) -> (E, CallReply<RawJobError>),

        requires
            forall|state: E, raw: RawJobError, error: ErrorBuffer|
                raw.fresh() && error.fresh() ==> #[trigger] call_requires(
                    take,
                    (old(self).raw(), state, raw, error),
                ),
        ensures
            *final(self) == *old(self),
            exists|states: Seq<E>, replies: Seq<CallReply<RawJobError>>| #[trigger]
                pulled(take, old(self).raw(), states, replies) && states[0] == engine
                    && states.last() == collection.1 && drained(replies, collection.0),
    {
        let ghost mut states: Seq<E> = seq![engine];
        let ghost mut replies: Seq<CallReply<RawJobError>> = Seq::empty();
        let mut state = engine;
        let mut errors: Vec<JobError> = Vec::new();
        loop
            invariant
                *self == *old(self),
                forall|state: E, raw: RawJobError, error: ErrorBuffer|
                    raw.fresh() && error.fresh() ==> #[trigger] call_requires(
                        take,
                        (old(self).raw(), state, raw, error),
                    ),
                pulled(take, old(self).raw(), states, replies),
                states[0] == engine,
                states.last() == state,
                collected(replies, errors@),
            decreases usize::MAX - errors.len(),
        {
            let ghost so_far = replies;
            let ghost before = states;
            let ghost errors_so_far = errors@;
            let (after, reply) = take(
                self.address(),
                state,
                fresh_job_error(),
                fresh_error_buffer(),
            );
            proof {
                states = before.push(after);
                replies = so_far.push(reply);
                assert(replies.drop_last() =~= so_far);
                assert(collected(replies.drop_last(), errors_so_far));
                assert(pull(take, old(self).raw(), before.last(), after, reply));
                assert forall|i: int| #![trigger replies[i]] 0 <= i < replies.len() implies pull(
                    take,
                    old(self).raw(),
                    states[i],
                    states[i + 1],
                    replies[i],
                ) by {
                    if i < so_far.len() {
                        assert(replies[i] == so_far[i]);
                    }
                }
                assert(pulled(take, old(self).raw(), states, replies));
            }
            state = after;
            match absorb_job_error(errors, reply) {
                JobErrorStep::More(all) => {
                    errors = all;
                },
                JobErrorStep::Done(result) => {
                    return (result, state);
                },
            }
        }
    }

    /// Registers how the engine talks to an `Element` host, once per runtime.
    ///
    /// The callbacks are type-level; the hosts they describe are per DOM object and
    /// are handed over one at a time by an interface-typed getter.
    pub fn install_element_host<F>(
        &mut self,
        install: F,
    ) -> (result: Result<(), Error>) where
        F: FnOnce(usize, ErrorBuffer) -> CallReply<()>,

        requires
            forall|error: ErrorBuffer|
                error.fresh() ==> #[trigger] call_requires(install, (old(self).raw(), error)),
        ensures
            *final(self) == *old(self),
            exists|error: ErrorBuffer, reply: CallReply<()>|
                error.fresh() && #[trigger] call_ensures(
                    install,
                    (old(self).raw(), error),
                    reply,
                ) && reply.reads(result),
    {
        let reply = install(self.address(), fresh_error_buffer());
        reply_value(reply)
    }

    /// Registers the type-level host for static NodeLists returned by
    /// querySelectorAll. Each individual list is transferred separately.
    pub fn install_node_list_host<F>(
        &mut self,
        install: F,
    ) -> (result: Result<(), Error>) where
        F: FnOnce(usize, ErrorBuffer) -> CallReply<()>,

        requires
            forall|error: ErrorBuffer|
                error.fresh() ==> #[trigger] call_requires(install, (old(self).raw(), error)),
        ensures
            *final(self) == *old(self),
            exists|error: ErrorBuffer, reply: CallReply<()>|
                error.fresh() && #[trigger] call_ensures(
                    install,
                    (old(self).raw(), error),
                    reply,
                ) && reply.reads(result),
    {
        let reply = install(self.address(), fresh_error_buffer());
        reply_value(reply)
    }

    /// Registers the type-level host for live HTMLCollections returned by
    /// ParentNode.children. Each owner transfers a host separately and the realm
    /// preserves the attribute's `[SameObject]` wrapper identity.
    pub fn install_html_collection_host<F>(
        &mut self,
        install: F,
    ) -> (result: Result<(), Error>) where
        F: FnOnce(usize, ErrorBuffer) -> CallReply<()>,

        requires
            forall|error: ErrorBuffer|
                error.fresh() ==> #[trigger] call_requires(install, (old(self).raw(), error)),
        ensures
            *final(self) == *old(self),
            exists|error: ErrorBuffer, reply: CallReply<()>|
                error.fresh() && #[trigger] call_ensures(
                    install,
                    (old(self).raw(), error),
                    reply,
                ) && reply.reads(result),
    {
        let reply = install(self.address(), fresh_error_buffer());
        reply_value(reply)
    }

    /// Discards a retained classic script without executing it.
    pub fn discard_script_in_realm<F>(
        &mut self,
        realm_id: RealmId,
        script_id: ScriptId,
        discard: F,
    ) -> (result: Result<(), Error>) where
        F: FnOnce(usize, RealmId, ScriptId, ErrorBuffer) -> CallReply<()>,

        requires
            forall|error: ErrorBuffer|
                error.fresh() ==> #[trigger] call_requires(
                    discard,
                    (old(self).raw(), realm_id, script_id, error),
                ),
        ensures
            *final(self) == *old(self),
            exists|error: ErrorBuffer, reply: CallReply<()>|
                error.fresh() && #[trigger] call_ensures(
                    discard,
                    (old(self).raw(), realm_id, script_id, error),
                    reply,
                ) && reply.reads(result),
    {
        let reply = discard(self.address(), realm_id, script_id, fresh_error_buffer());
        reply_value(reply)
    }

    /// Installs a realm-owned host for the selected `Document` bindings. After
    /// successful installation, the native host is destroyed synchronously when its
    /// realm or runtime is destroyed. The engine consumes the host only when it
    /// succeeds, so a failed installation, and only that, releases it here.
    pub fn install_document_host<F, D>(
        &mut self,
        realm_id: RealmId,
        native: usize,
        install: F,
        release: D,
    ) -> (result: Result<(), Error>) where
        F: FnOnce(usize, RealmId, usize, ErrorBuffer) -> CallReply<()>,
        D: FnOnce(usize),

        requires
            forall|error: ErrorBuffer|
                error.fresh() ==> #[trigger] call_requires(
                    install,
                    (old(self).raw(), realm_id, native, error),
                ),
            forall|error: ErrorBuffer, reply: CallReply<()>|
                error.fresh() && #[trigger] call_ensures(
                    install,
                    (old(self).raw(), realm_id, native, error),
                    reply,
                ) && reply.succeeded == 0 ==> call_requires(release, (native,)),
        ensures
            *final(self) == *old(self),
            exists|error: ErrorBuffer, reply: CallReply<()>|
                error.fresh() && #[trigger] call_ensures(
                    install,
                    (old(self).raw(), realm_id, native, error),
                    reply,
                ) && reply.reads(result),
            result is Err ==> call_ensures(release, (native,), ()),
    {
        let reply = install(self.address(), realm_id, native, fresh_error_buffer());
        if reply.succeeded == 0 {
            release(native);
        }
        reply_value(reply)
    }

    /// Installs one realm-owned host that connects V8 timer operations to the
    /// embedder's scheduler. A failed installation releases the host here.
    pub fn install_timer_host<F, D>(
        &mut self,
        realm_id: RealmId,
        native: usize,
        install: F,
        release: D,
    ) -> (result: Result<(), Error>) where
        F: FnOnce(usize, RealmId, usize, ErrorBuffer) -> CallReply<()>,
        D: FnOnce(usize),

        requires
            forall|error: ErrorBuffer|
                error.fresh() ==> #[trigger] call_requires(
                    install,
                    (old(self).raw(), realm_id, native, error),
                ),
            forall|error: ErrorBuffer, reply: CallReply<()>|
                error.fresh() && #[trigger] call_ensures(
                    install,
                    (old(self).raw(), realm_id, native, error),
                    reply,
                ) && reply.succeeded == 0 ==> call_requires(release, (native,)),
        ensures
            *final(self) == *old(self),
            exists|error: ErrorBuffer, reply: CallReply<()>|
                error.fresh() && #[trigger] call_ensures(
                    install,
                    (old(self).raw(), realm_id, native, error),
                    reply,
                ) && reply.reads(result),
            result is Err ==> call_ensures(release, (native,), ()),
    {
        let reply = install(self.address(), realm_id, native, fresh_error_buffer());
        if reply.succeeded == 0 {
            release(native);
        }
        reply_value(reply)
    }

    /// Installs one realm-owned sink for the supported console namespace logging
    /// operations. A failed installation releases the sink here.
    pub fn install_console_host<F, D>(
        &mut self,
        realm_id: RealmId,
        native: usize,
        install: F,
        release: D,
    ) -> (result: Result<(), Error>) where
        F: FnOnce(usize, RealmId, usize, ErrorBuffer) -> CallReply<()>,
        D: FnOnce(usize),

        requires
            forall|error: ErrorBuffer|
                error.fresh() ==> #[trigger] call_requires(
                    install,
                    (old(self).raw(), realm_id, native, error),
                ),
            forall|error: ErrorBuffer, reply: CallReply<()>|
                error.fresh() && #[trigger] call_ensures(
                    install,
                    (old(self).raw(), realm_id, native, error),
                    reply,
                ) && reply.succeeded == 0 ==> call_requires(release, (native,)),
        ensures
            *final(self) == *old(self),
            exists|error: ErrorBuffer, reply: CallReply<()>|
                error.fresh() && #[trigger] call_ensures(
                    install,
                    (old(self).raw(), realm_id, native, error),
                    reply,
                ) && reply.reads(result),
            result is Err ==> call_ensures(release, (native,), ()),
    {
        let reply = install(self.address(), realm_id, native, fresh_error_buffer());
        if reply.succeeded == 0 {
            release(native);
        }
        reply_value(reply)
    }

    /// Invokes a retained timer function with one ephemeral host context.
    ///
    /// `host_context` must remain valid for every synchronous native callback made
    /// during this invocation and may not be retained by a host.
    pub fn run_timer_callback_in_realm_with_host_context<F>(
        &mut self,
        realm_id: RealmId,
        callback_id: TimerCallbackId,
        host_context: usize,
        run: F,
    ) -> (result: Result<ScriptRunOutcome, Error>) where
        F: FnOnce(
            usize,
            RealmId,
            TimerCallbackId,
            usize,
            RawScriptRunOutcome,
            ErrorBuffer,
        ) -> CallReply<RawScriptRunOutcome>,

        requires
            forall|outcome: RawScriptRunOutcome, error: ErrorBuffer|
                outcome.fresh() && error.fresh() ==> #[trigger] call_requires(
                    run,
                    (old(self).raw(), realm_id, callback_id, host_context, outcome, error),
                ),
        ensures
            *final(self) == *old(self),
            exists|
                outcome: RawScriptRunOutcome,
                error: ErrorBuffer,
                reply: CallReply<RawScriptRunOutcome>,
            |
                outcome.fresh() && error.fresh() && #[trigger] call_ensures(
                    run,
                    (old(self).raw(), realm_id, callback_id, host_context, outcome, error),
                    reply,
                ) && reply.reads_run(
                    "V8 returned unknown timer callback run status "@,
                    result,
                ),
    {
        let reply = run(
            self.address(),
            realm_id,
            callback_id,
            host_context,
            fresh_run_outcome(),
            fresh_error_buffer(),
        );
        run_outcome(reply, "V8 returned unknown timer callback run status ")
    }

    /// Invokes a retained timer function with no embedding host context.
    pub fn run_timer_callback_in_realm<F>(
        &mut self,
        realm_id: RealmId,
        callback_id: TimerCallbackId,
        run: F,
    ) -> (result: Result<ScriptRunOutcome, Error>) where
        F: FnOnce(
            usize,
            RealmId,
            TimerCallbackId,
            usize,
            RawScriptRunOutcome,
            ErrorBuffer,
        ) -> CallReply<RawScriptRunOutcome>,

        requires
            forall|outcome: RawScriptRunOutcome, error: ErrorBuffer|
                outcome.fresh() && error.fresh() ==> #[trigger] call_requires(
                    run,
                    (old(self).raw(), realm_id, callback_id, 0usize, outcome, error),
                ),
        ensures
            *final(self) == *old(self),
            exists|
                outcome: RawScriptRunOutcome,
                error: ErrorBuffer,
                reply: CallReply<RawScriptRunOutcome>,
            |
                outcome.fresh() && error.fresh() && #[trigger] call_ensures(
                    run,
                    (old(self).raw(), realm_id, callback_id, 0usize, outcome, error),
                    reply,
                ) && reply.reads_run(
                    "V8 returned unknown timer callback run status "@,
                    result,
                ),
    {
        self.run_timer_callback_in_realm_with_host_context(realm_id, callback_id, 0, run)
    }

    /// Releases one retained timer function without invoking it. Clearing an
    /// already fired or already cleared callback is a successful no-op.
    pub fn clear_timer_callback_in_realm<F>(
        &mut self,
        realm_id: RealmId,
        callback_id: TimerCallbackId,
        clear: F,
    ) -> (result: Result<(), Error>) where
        F: FnOnce(usize, RealmId, TimerCallbackId, ErrorBuffer) -> CallReply<()>,

        requires
            forall|error: ErrorBuffer|
                error.fresh() ==> #[trigger] call_requires(
                    clear,
                    (old(self).raw(), realm_id, callback_id, error),
                ),
        ensures
            *final(self) == *old(self),
            exists|error: ErrorBuffer, reply: CallReply<()>|
                error.fresh() && #[trigger] call_ensures(
                    clear,
                    (old(self).raw(), realm_id, callback_id, error),
                    reply,
                ) && reply.reads(result),
    {
        let reply = clear(self.address(), realm_id, callback_id, fresh_error_buffer());
        reply_value(reply)
    }

    /// Reads `document.hidden` through the installed native accessor.
    pub fn document_hidden<F>(
        &mut self,
        realm_id: RealmId,
        read: F,
    ) -> (result: Result<bool, Error>) where
        F: FnOnce(usize, RealmId, u8, ErrorBuffer) -> CallReply<u8>,

        requires
            forall|error: ErrorBuffer|
                error.fresh() ==> #[trigger] call_requires(
                    read,
                    (old(self).raw(), realm_id, 0u8, error),
                ),
        ensures
            *final(self) == *old(self),
            exists|error: ErrorBuffer, reply: CallReply<u8>|
                error.fresh() && #[trigger] call_ensures(
                    read,
                    (old(self).raw(), realm_id, 0u8, error),
                    reply,
                ) && reply.reads_bool(result),
    {
        let reply = read(self.address(), realm_id, 0u8, fresh_error_buffer());
        reply_bool(reply)
    }

    /// Installs the generated constructor/getter/setter/method binding.
    pub fn install_engine_binding_smoke<F>(
        &mut self,
        install: F,
    ) -> (result: Result<(), Error>) where
        F: FnOnce(usize, ErrorBuffer) -> CallReply<()>,

        requires
            forall|error: ErrorBuffer|
                error.fresh() ==> #[trigger] call_requires(install, (old(self).raw(), error)),
        ensures
            *final(self) == *old(self),
            exists|error: ErrorBuffer, reply: CallReply<()>|
                error.fresh() && #[trigger] call_ensures(
                    install,
                    (old(self).raw(), error),
                    reply,
                ) && reply.reads(result),
    {
        let reply = install(self.address(), fresh_error_buffer());
        reply_value(reply)
    }

    /// Evaluates a boolean expression.
    pub fn eval_bool<'a, F>(
        &mut self,
        source: &'a str,
        eval: F,
    ) -> (result: Result<bool, Error>) where
        F: FnOnce(usize, &'a str, u8, ErrorBuffer) -> CallReply<u8>,

        requires
            forall|error: ErrorBuffer|
                error.fresh() ==> #[trigger] call_requires(
                    eval,
                    (old(self).raw(), source, 0u8, error),
                ),
        ensures
            *final(self) == *old(self),
            exists|error: ErrorBuffer, reply: CallReply<u8>|
                error.fresh() && #[trigger] call_ensures(
                    eval,
                    (old(self).raw(), source, 0u8, error),
                    reply,
                ) && reply.reads_bool(result),
    {
        let reply = eval(self.address(), source, 0u8, fresh_error_buffer());
        reply_bool(reply)
    }

    /// Evaluates an integer expression.
    pub fn eval_i64<'a, F>(
        &mut self,
        source: &'a str,
        eval: F,
    ) -> (result: Result<i64, Error>) where
        F: FnOnce(usize, &'a str, i64, ErrorBuffer) -> CallReply<i64>,

        requires
            forall|error: ErrorBuffer|
                error.fresh() ==> #[trigger] call_requires(
                    eval,
                    (old(self).raw(), source, 0i64, error),
                ),
        ensures
            *final(self) == *old(self),
            exists|error: ErrorBuffer, reply: CallReply<i64>|
                error.fresh() && #[trigger] call_ensures(
                    eval,
                    (old(self).raw(), source, 0i64, error),
                    reply,
                ) && reply.reads(result),
    {
        let reply = eval(self.address(), source, 0i64, fresh_error_buffer());
        reply_value(reply)
    }

    /// Compiles a classic script without executing it.
    pub fn compile<'a, F>(
        &mut self,
        source: &'a str,
        resource_name: &'a str,
        line_number: u32,
        compile: F,
    ) -> (result: Result<(), Error>) where
        F: FnOnce(usize, &'a str, &'a str, u32, ErrorBuffer) -> CallReply<()>,

        requires
            forall|error: ErrorBuffer|
                error.fresh() ==> #[trigger] call_requires(
                    compile,
                    (old(self).raw(), source, resource_name, line_number, error),
                ),
        ensures
            *final(self) == *old(self),
            exists|error: ErrorBuffer, reply: CallReply<()>|
                error.fresh() && #[trigger] call_ensures(
                    compile,
                    (old(self).raw(), source, resource_name, line_number, error),
                    reply,
                ) && reply.reads(result),
    {
        let reply = compile(
            self.address(),
            source,
            resource_name,
            line_number,
            fresh_error_buffer(),
        );
        reply_value(reply)
    }

    /// Reads how many wrappers a realm caches.
    pub fn wrapper_cache_size_for_testing<F>(
        &mut self,
        realm_id: RealmId,
        read: F,
    ) -> (result: Result<usize, Error>) where
        F: FnOnce(usize, RealmId, usize, ErrorBuffer) -> CallReply<usize>,

        requires
            forall|error: ErrorBuffer|
                error.fresh() ==> #[trigger] call_requires(
                    read,
                    (old(self).raw(), realm_id, 0usize, error),
                ),
        ensures
            *final(self) == *old(self),
            exists|error: ErrorBuffer, reply: CallReply<usize>|
                error.fresh() && #[trigger] call_ensures(
                    read,
                    (old(self).raw(), realm_id, 0usize, error),
                    reply,
                ) && reply.reads(result),
    {
        let reply = read(self.address(), realm_id, 0usize, fresh_error_buffer());
        reply_value(reply)
    }

    /// Tells the engine that memory is low.
    pub fn low_memory_notification<F: FnOnce(usize)>(&mut self, notify: F)
        requires
            call_requires(notify, (old(self).raw(),)),
        ensures
            *final(self) == *old(self),
            call_ensures(notify, (old(self).raw(),), ()),
    {
        notify(self.address());
    }

    /// Asks an engine created with `expose_gc` for a full collection.
    pub fn collect_garbage_for_testing<F: FnOnce(usize)>(&mut self, collect: F)
        requires
            call_requires(collect, (old(self).raw(),)),
        ensures
            *final(self) == *old(self),
            call_ensures(collect, (old(self).raw(),), ()),
    {
        collect(self.address());
    }
}

/// The engine behind `take` keeps the job errors `pending` in a queue: a pull
/// succeeds, delivers the first of them and leaves the rest, or delivers nothing
/// and leaves nothing where there is none.
pub open spec fn keeps_a_queue<
    E,
    F: Fn(usize, E, RawJobError, ErrorBuffer) -> (E, CallReply<RawJobError>),
>(take: F, runtime: usize, pending: spec_fn(E) -> Seq<RawJobError>) -> bool {
    forall|before: E, after: E, reply: CallReply<RawJobError>| #[trigger]
        pull(take, runtime, before, after, reply) ==> {
            &&& reply.succeeded != 0
            &&& if pending(before).len() == 0 {
                &&& reply.result.has_error == 0
                &&& pending(after).len() == 0
            } else {
                &&& reply.result.has_error != 0
                &&& reply.result == pending(before)[0]
                &&& pending(after) == pending(before).drop_first()
            }
        }
}

/// From an engine that keeps a queue of job errors, the collection takes every
/// error that was pending, once, oldest first, reads each from its own storage,
/// and leaves the queue empty.
pub proof fn pending_job_errors_are_drained<
    E,
    F: Fn(usize, E, RawJobError, ErrorBuffer) -> (E, CallReply<RawJobError>),
>(
    take: F,
    runtime: usize,
    pending: spec_fn(E) -> Seq<RawJobError>,
    states: Seq<E>,
    replies: Seq<CallReply<RawJobError>>,
    result: Result<Vec<JobError>, Error>,
)
    requires
        keeps_a_queue(take, runtime, pending),
        pulled(take, runtime, states, replies),
        drained(replies, result),
    ensures
        result is Ok,
        result->Ok_0@.len() == pending(states[0]).len(),
        forall|i: int|
            0 <= i < result->Ok_0@.len() ==> (#[trigger] result->Ok_0@[i]).reads(
                pending(states[0])[i],
            ),
        pending(states.last()).len() == 0,
{
    let last = replies.len() - 1;
    assert(pull(take, runtime, states[last], states[last + 1], replies[last]));
    let errors = result->Ok_0@;
    assert forall|i: int| 0 <= i < last implies (#[trigger] replies[i]).result.has_error != 0 by {
        assert(replies.drop_last()[i] == replies[i]);
    }
    pulls_advance_the_queue(take, runtime, pending, states, replies, last);
    assert forall|i: int| 0 <= i < errors.len() implies (#[trigger] errors[i]).reads(
        pending(states[0])[i],
    ) by {
        pulls_advance_the_queue(take, runtime, pending, states, replies, i);
        assert(replies.drop_last()[i] == replies[i]);
    }
}

/// Pulling is destructive: a collection that finds the engine as another left
/// it, with nothing queued in between, is empty, so that each error is collected
/// once.
pub proof fn a_second_collection_is_empty<
    E,
    F: Fn(usize, E, RawJobError, ErrorBuffer) -> (E, CallReply<RawJobError>),
    G: Fn(usize, E, RawJobError, ErrorBuffer) -> (E, CallReply<RawJobError>),
>(
    take: F,
    retake: G,
    runtime: usize,
    pending: spec_fn(E) -> Seq<RawJobError>,
    first: (Seq<E>, Seq<CallReply<RawJobError>>, Result<Vec<JobError>, Error>),
    second: (Seq<E>, Seq<CallReply<RawJobError>>, Result<Vec<JobError>, Error>),
)
    requires
        keeps_a_queue(take, runtime, pending),
        pulled(take, runtime, first.0, first.1),
        drained(first.1, first.2),
        keeps_a_queue(retake, runtime, pending),
        pulled(retake, runtime, second.0, second.1),
        drained(second.1, second.2),
        second.0[0] == first.0.last(),
    ensures
        second.2 matches Ok(errors) && errors@.len() == 0,
{
    pending_job_errors_are_drained(take, runtime, pending, first.0, first.1, first.2);
    pending_job_errors_are_drained(retake, runtime, pending, second.0, second.1, second.2);
}

/// After `count` pulls that delivered an error, the queue has lost its first
/// `count` entries.
proof fn pulls_advance_the_queue<
    E,
    F: Fn(usize, E, RawJobError, ErrorBuffer) -> (E, CallReply<RawJobError>),
>(
    take: F,
    runtime: usize,
    pending: spec_fn(E) -> Seq<RawJobError>,
    states: Seq<E>,
    replies: Seq<CallReply<RawJobError>>,
    count: int,
)
    requires
        keeps_a_queue(take, runtime, pending),
        pulled(take, runtime, states, replies),
        0 <= count < replies.len(),
        forall|i: int| 0 <= i < count ==> (#[trigger] replies[i]).result.has_error != 0,
    ensures
        count <= pending(states[0]).len(),
        pending(states[count]) == pending(states[0]).skip(count),
        replies[count].result.has_error != 0 ==> count < pending(states[0]).len()
            && replies[count].result == pending(states[0])[count],
        replies[count].result.has_error == 0 ==> count == pending(states[0]).len(),
        replies[count].succeeded != 0,
    decreases count,
{
    if count > 0 {
        pulls_advance_the_queue(take, runtime, pending, states, replies, count - 1);
        assert(pending(states[0]).skip(count - 1).drop_first() =~= pending(states[0]).skip(count));
    } else {
        assert(pending(states[0]).skip(0) =~= pending(states[0]));
    }
    assert(pull(take, runtime, states[count], states[count + 1], replies[count]));
}

/// Closing a runtime's handles clears the state behind each of them, the clones
/// included.
pub proof fn closing_clears_every_handle(handle: InterruptHandle, runtime: Runtime)
    requires
        handle.interrupts(runtime),
        runtime.handles_closed(),
    ensures
        handle.cleared(),
{
}

/// The handles of one runtime share one interrupt state: they are
/// interchangeable, and so are their clones.
pub proof fn handles_of_a_runtime_are_one(
    a: InterruptHandle,
    b: InterruptHandle,
    runtime: Runtime,
)
    requires
        a.interrupts(runtime),
        b.interrupts(runtime),
    ensures
        a == b,
{
}

/// Once a runtime's handles are closed, the lock behind each of them was taken
/// and given back holding zero, whatever address it held.
pub proof fn closed_handles_were_given_zero(handle: InterruptHandle, runtime: Runtime)
    requires
        handle.interrupts(runtime),
        runtime.handles_closed(),
    ensures
        exists|raw_address: usize, guard: WriteHandle<'_, usize, OwnedBy>|
            #[trigger] call_ensures(
                RwLock::<usize, OwnedBy>::acquire_write,
                (&handle.lock(),),
                (raw_address, guard),
            ) && #[trigger] call_ensures(
                WriteHandle::<usize, OwnedBy>::release_write,
                (guard, 0usize),
                (),
            ),
{
    assert(handle.lock() == handle.state.lock());
    interrupt::closing_gives_back_zero(&*handle.state);
}

/// The lock behind every handle of a runtime was made holding the address that
/// the handle names.
pub proof fn handles_are_made_with_their_owner(handle: InterruptHandle, runtime: Runtime)
    requires
        handle.interrupts(runtime),
        runtime.handles_opened(),
    ensures
        exists|pred: OwnedBy| #[trigger]
            call_ensures(
                RwLock::<usize, OwnedBy>::new,
                (handle.owner(), Ghost(pred)),
                handle.lock(),
            ),
{
    assert(handle.owner() == handle.state.owner());
    assert(handle.lock() == handle.state.lock());
    interrupt::states_are_made_with_their_owner(&*handle.state);
}

/// A handle answers by what its lock held: a request was sent exactly when that
/// was no zero, it was made to that very address, and the lock was given it
/// back.
pub proof fn handles_answer_by_their_lock<F: FnOnce(usize)>(
    handle: InterruptHandle,
    request: F,
    sent: bool,
)
    requires
        handle.answered(request, sent),
    ensures
        exists|raw_address: usize, guard: WriteHandle<'_, usize, OwnedBy>|
            {
                &&& #[trigger] call_ensures(
                    RwLock::<usize, OwnedBy>::acquire_write,
                    (&handle.lock(),),
                    (raw_address, guard),
                )
                &&& raw_address == 0 <==> !sent
                &&& raw_address != 0 ==> call_ensures(request, (raw_address,), ())
                &&& call_ensures(
                    WriteHandle::<usize, OwnedBy>::release_write,
                    (guard, raw_address),
                    (),
                )
            },
{
    assert(handle.lock() == handle.state.lock());
    interrupt::requests_follow_the_lock(&*handle.state, request, sent);
}

/// The message about another ABI version names the version that is spoken here
/// and then the version that was found, so that it tells versions apart.
pub proof fn abi_mismatches_name_both_versions(found: u32, other: u32)
    ensures
        abi_mismatch(found) == "Servo V8 ABI mismatch: Rust expects 42, C++ provides "@
            + text::decimal(found as nat),
        abi_mismatch(found) == abi_mismatch(other) <==> found == other,
{
    let opening = "Servo V8 ABI mismatch: Rust expects 42, C++ provides "@;
    reveal_strlit("Servo V8 ABI mismatch: Rust expects 42, C++ provides ");
    reveal_strlit("Servo V8 ABI mismatch: Rust expects ");
    reveal_strlit(", C++ provides ");
    text::appending_a_digit_multiplies_by_ten(4, 2);
    assert(opening =~= "Servo V8 ABI mismatch: Rust expects "@ + text::decimal(42)
        + ", C++ provides "@);
    assert(abi_mismatch(found) =~= opening + text::decimal(found as nat));
    assert(abi_mismatch(other) =~= opening + text::decimal(other as nat));
    assert(abi_mismatch(found).skip(opening.len() as int) =~= text::decimal(found as nat));
    assert(abi_mismatch(other).skip(opening.len() as int) =~= text::decimal(other as nat));
    text::decimals_tell_numbers_apart(found as nat, other as nat);
}

/// Every pull is lent blank storage, is made to the runtime, and finds the
/// engine as the pull before it left it.
pub proof fn pulls_are_lent_blank_storage<
    E,
    F: Fn(usize, E, RawJobError, ErrorBuffer) -> (E, CallReply<RawJobError>),
>(take: F, runtime: usize, states: Seq<E>, replies: Seq<CallReply<RawJobError>>, i: int)
    requires
        pulled(take, runtime, states, replies),
        0 <= i < replies.len(),
    ensures
        states.len() == replies.len() + 1,
        exists|raw: RawJobError, error: ErrorBuffer|
            raw.fresh() && error.fresh() && #[trigger] call_ensures(
                take,
                (runtime, states[i], raw, error),
                (states[i + 1], replies[i]),
            ),
{
    assert(pull(take, runtime, states[i], states[i + 1], replies[i]));
}

/// A collection stops at the first pull that failed or had nothing to deliver,
/// and at no other. If it failed, its error is the result; otherwise the result
/// holds one error for every pull before it, in order, each with the line, the
/// column, the texts and the realm that its own pull delivered.
pub proof fn collections_report_every_delivery(
    replies: Seq<CallReply<RawJobError>>,
    result: Result<Vec<JobError>, Error>,
)
    requires
        drained(replies, result),
    ensures
        replies.len() > 0,
        forall|i: int|
            0 <= i < replies.len() ==> (i == replies.len() - 1 <==> ((
            #[trigger] replies[i]).succeeded == 0 || replies[i].result.has_error == 0)),
        result is Err <==> replies[replies.len() - 1].succeeded == 0,
        result matches Err(error) ==> replies[replies.len() - 1].error.spells(error@),
        result matches Ok(errors) ==> errors@.len() == replies.len() - 1,
        result matches Ok(errors) ==> forall|i: int|
            0 <= i < errors@.len() ==> {
                let delivered = replies[i].result;
                &&& (#[trigger] errors@[i]).exception.line_number
                    == delivered.exception.line_number
                &&& errors@[i].exception.column_number == delivered.exception.column_number
                &&& delivered.exception.message.spells(errors@[i].exception.message@)
                &&& delivered.exception.resource_name.spells(errors@[i].exception.resource_name@)
                &&& delivered.exception.stack.spells(errors@[i].exception.stack@)
                &&& errors@[i].realm_id is None <==> delivered.realm_id.0 == 0
                &&& errors@[i].realm_id matches Some(realm_id) ==> realm_id == delivered.realm_id
            },
{
    let earlier = replies.drop_last();
    assert forall|i: int| 0 <= i < earlier.len() implies (#[trigger] replies[i]).succeeded != 0
        && replies[i].result.has_error != 0 by {
        assert(earlier[i] == replies[i]);
    }
    if let Ok(errors) = result {
        assert forall|i: int| 0 <= i < errors@.len() implies (#[trigger] errors@[i]).reads(
            replies[i].result,
        ) by {
            assert(earlier[i] == replies[i]);
        }
    }
}

} // verus!
