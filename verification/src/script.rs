//! What the engine reports about scripts, and how a reply is read.
//!
//! Every engine call answers whether it succeeded, fills an error buffer when
//! it did not, and leaves its results in storage it was lent. A reply holds
//! all of that as it stands after the call.

use crate::abi::{
    RealmId, ScriptId, SCRIPT_COMPILED, SCRIPT_COMPILE_THROWN, SCRIPT_RUN_COMPLETED,
    SCRIPT_RUN_TERMINATED, SCRIPT_RUN_THROWN,
};
use crate::text;
use crate::text::{append_decimal, error_from, fresh_error_buffer, text_from, Error, ErrorBuffer};
use vstd::prelude::*;
use vstd::string::StringExecFns;

verus! {

/// An exception, or a parse error, as text.
#[derive(Debug, Eq, PartialEq)]
pub struct ScriptException {
    pub message: String,
    pub resource_name: String,
    pub stack: String,
    pub line_number: u32,
    pub column_number: u32,
}

/// One failed microtask job, and the realm it belongs to.
///
/// `realm_id` is `None` only when V8 could not name a context for the failure,
/// which leaves the embedder no global to report it on.
#[derive(Debug, Eq, PartialEq)]
pub struct JobError {
    pub realm_id: Option<RealmId>,
    pub exception: ScriptException,
}

/// How a script, a timer callback or a microtask checkpoint ended.
#[derive(Debug, Eq, PartialEq)]
pub enum ScriptRunOutcome {
    Completed,
    Thrown(ScriptException),
    Terminated,
}

/// How a compilation ended.
#[derive(Debug, Eq, PartialEq)]
pub enum ScriptCompileOutcome {
    Compiled(ScriptId),
    ParseError(ScriptException),
}

/// The storage an exception is reported in.
pub struct RawScriptException {
    pub message: ErrorBuffer,
    pub resource_name: ErrorBuffer,
    pub stack: ErrorBuffer,
    pub line_number: u32,
    pub column_number: u32,
}

/// The storage a run is reported in.
pub struct RawScriptRunOutcome {
    pub status: u32,
    pub exception: RawScriptException,
}

/// The storage a compilation is reported in.
pub struct RawScriptCompileOutcome {
    pub status: u32,
    pub script_id: ScriptId,
    pub exception: RawScriptException,
}

/// The storage a pending job error is reported in.
pub struct RawJobError {
    pub realm_id: RealmId,
    pub exception: RawScriptException,
    pub has_error: u8,
}

/// What one engine call left behind.
pub struct CallReply<R> {
    pub succeeded: i32,
    pub result: R,
    pub error: ErrorBuffer,
}

impl RawScriptException {
    /// Storage that no engine call has written yet.
    pub open spec fn fresh(self) -> bool {
        &&& self.message.fresh()
        &&& self.resource_name.fresh()
        &&& self.stack.fresh()
        &&& self.line_number == 0
        &&& self.column_number == 0
    }
}

impl RawScriptRunOutcome {
    /// Storage that no engine call has written yet: a completed run.
    pub open spec fn fresh(self) -> bool {
        self.status == SCRIPT_RUN_COMPLETED && self.exception.fresh()
    }
}

impl RawScriptCompileOutcome {
    /// Storage that no engine call has written yet: a compilation that retained
    /// nothing.
    pub open spec fn fresh(self) -> bool {
        self.status == SCRIPT_COMPILED && self.script_id == ScriptId(0) && self.exception.fresh()
    }
}

impl RawJobError {
    /// Storage that no engine call has written yet: no error and no realm.
    pub open spec fn fresh(self) -> bool {
        self.realm_id == RealmId(0) && self.has_error == 0 && self.exception.fresh()
    }
}

impl ScriptException {
    /// The exception is what the storage says.
    pub open spec fn reads(self, raw: RawScriptException) -> bool {
        &&& raw.message.spells(self.message@)
        &&& raw.resource_name.spells(self.resource_name@)
        &&& raw.stack.spells(self.stack@)
        &&& self.line_number == raw.line_number
        &&& self.column_number == raw.column_number
    }
}

impl JobError {
    /// The job error is what the storage says; realm zero is no realm.
    pub open spec fn reads(self, raw: RawJobError) -> bool {
        &&& self.exception.reads(raw.exception)
        &&& self.realm_id == if raw.realm_id == RealmId(0) {
            None
        } else {
            Some(raw.realm_id)
        }
    }
}

impl<R> CallReply<R> {
    /// `error` is the failure the reply reports.
    pub open spec fn fails(self, error: Error) -> bool {
        self.succeeded == 0 && self.error.spells(error@)
    }

    /// `result` is the reading of the reply: its result, or the error it
    /// reports.
    pub open spec fn reads(self, result: Result<R, Error>) -> bool {
        match result {
            Ok(value) => self.succeeded != 0 && value == self.result,
            Err(error) => self.fails(error),
        }
    }
}

impl CallReply<u8> {
    /// `result` is the reading of a boolean reply: any nonzero byte is true.
    pub open spec fn reads_bool(self, result: Result<bool, Error>) -> bool {
        match result {
            Ok(value) => self.succeeded != 0 && value == (self.result != 0),
            Err(error) => self.fails(error),
        }
    }
}

impl CallReply<RawScriptCompileOutcome> {
    /// `result` is the reading of a compilation. A status other than the two
    /// known ones is an error that names it.
    pub open spec fn reads_compile(self, result: Result<ScriptCompileOutcome, Error>) -> bool {
        let status = self.result.status;
        match result {
            Ok(ScriptCompileOutcome::Compiled(script_id)) => {
                &&& self.succeeded != 0
                &&& status == SCRIPT_COMPILED
                &&& script_id == self.result.script_id
            },
            Ok(ScriptCompileOutcome::ParseError(exception)) => {
                &&& self.succeeded != 0
                &&& status == SCRIPT_COMPILE_THROWN
                &&& exception.reads(self.result.exception)
            },
            Err(error) => {
                ||| self.fails(error)
                ||| {
                    &&& self.succeeded != 0
                    &&& status != SCRIPT_COMPILED
                    &&& status != SCRIPT_COMPILE_THROWN
                    &&& error@ == unknown_status(
                        "V8 returned unknown classic-script compile status "@,
                        status,
                    )
                }
            },
        }
    }
}

impl CallReply<RawScriptRunOutcome> {
    /// `result` is the reading of a run. A status other than the three known
    /// ones is an error that names it behind `unknown`.
    pub open spec fn reads_run(
        self,
        unknown: Seq<char>,
        result: Result<ScriptRunOutcome, Error>,
    ) -> bool {
        let status = self.result.status;
        match result {
            Ok(ScriptRunOutcome::Completed) => {
                self.succeeded != 0 && status == SCRIPT_RUN_COMPLETED
            },
            Ok(ScriptRunOutcome::Thrown(exception)) => {
                &&& self.succeeded != 0
                &&& status == SCRIPT_RUN_THROWN
                &&& exception.reads(self.result.exception)
            },
            Ok(ScriptRunOutcome::Terminated) => {
                self.succeeded != 0 && status == SCRIPT_RUN_TERMINATED
            },
            Err(error) => {
                ||| self.fails(error)
                ||| {
                    &&& self.succeeded != 0
                    &&& status != SCRIPT_RUN_COMPLETED
                    &&& status != SCRIPT_RUN_THROWN
                    &&& status != SCRIPT_RUN_TERMINATED
                    &&& error@ == unknown_status(unknown, status)
                }
            },
        }
    }
}

impl CallReply<RawScriptRunOutcome> {
    /// `result` is the reading of a microtask checkpoint. Only termination is
    /// reported through it: a job that throws is buffered by the engine, so any
    /// status but the completed and the terminated one is an error that names
    /// it.
    pub open spec fn reads_checkpoint(self, result: Result<ScriptRunOutcome, Error>) -> bool {
        let status = self.result.status;
        match result {
            Ok(ScriptRunOutcome::Completed) => {
                self.succeeded != 0 && status == SCRIPT_RUN_COMPLETED
            },
            Ok(ScriptRunOutcome::Thrown(_)) => false,
            Ok(ScriptRunOutcome::Terminated) => {
                self.succeeded != 0 && status == SCRIPT_RUN_TERMINATED
            },
            Err(error) => {
                ||| self.fails(error)
                ||| {
                    &&& self.succeeded != 0
                    &&& status != SCRIPT_RUN_COMPLETED
                    &&& status != SCRIPT_RUN_TERMINATED
                    &&& error@ == unknown_status(
                        "V8 returned unknown microtask checkpoint status "@,
                        status,
                    )
                }
            },
        }
    }
}

/// The message for a status that is not known.
pub open spec fn unknown_status(unknown: Seq<char>, status: u32) -> Seq<char> {
    unknown + text::decimal(status as nat)
}

fn unknown_status_error(unknown: &str, status: u32) -> (error: Error)
    ensures
        error@ == unknown_status(unknown@, status),
{
    let mut message = unknown.to_string();
    append_decimal(&mut message, status);
    Error::new(message)
}

/// Storage for an exception.
pub fn fresh_script_exception() -> (raw: RawScriptException)
    ensures
        raw.fresh(),
{
    RawScriptException {
        message: fresh_error_buffer(),
        resource_name: fresh_error_buffer(),
        stack: fresh_error_buffer(),
        line_number: 0,
        column_number: 0,
    }
}

/// Storage for a run.
pub fn fresh_run_outcome() -> (raw: RawScriptRunOutcome)
    ensures
        raw.fresh(),
{
    RawScriptRunOutcome { status: SCRIPT_RUN_COMPLETED, exception: fresh_script_exception() }
}

/// Storage for a compilation.
pub fn fresh_compile_outcome() -> (raw: RawScriptCompileOutcome)
    ensures
        raw.fresh(),
{
    RawScriptCompileOutcome {
        status: SCRIPT_COMPILED,
        script_id: ScriptId(0),
        exception: fresh_script_exception(),
    }
}

/// Storage for a pending job error.
pub fn fresh_job_error() -> (raw: RawJobError)
    ensures
        raw.fresh(),
{
    RawJobError { realm_id: RealmId(0), exception: fresh_script_exception(), has_error: 0 }
}

/// Reads an exception.
pub fn script_exception(raw: &RawScriptException) -> (exception: ScriptException)
    ensures
        exception.reads(*raw),
{
    ScriptException {
        message: text_from(&raw.message),
        resource_name: text_from(&raw.resource_name),
        stack: text_from(&raw.stack),
        line_number: raw.line_number,
        column_number: raw.column_number,
    }
}

/// Reads a job error.
pub fn job_error(raw: &RawJobError) -> (error: JobError)
    ensures
        error.reads(*raw),
{
    let realm_id = if raw.realm_id == RealmId(0) {
        None
    } else {
        Some(raw.realm_id)
    };
    JobError { realm_id, exception: script_exception(&raw.exception) }
}

/// Reads a reply whose result needs no reading of its own.
pub fn reply_value<R>(reply: CallReply<R>) -> (result: Result<R, Error>)
    ensures
        reply.reads(result),
{
    if reply.succeeded == 0 {
        return Err(error_from(&reply.error));
    }
    Ok(reply.result)
}

/// Reads a boolean reply.
pub fn reply_bool(reply: CallReply<u8>) -> (result: Result<bool, Error>)
    ensures
        reply.reads_bool(result),
{
    if reply.succeeded == 0 {
        return Err(error_from(&reply.error));
    }
    Ok(reply.result != 0)
}

/// Reads a compilation.
pub fn compile_outcome(reply: CallReply<RawScriptCompileOutcome>) -> (result: Result<
    ScriptCompileOutcome,
    Error,
>)
    ensures
        reply.reads_compile(result),
{
    if reply.succeeded == 0 {
        return Err(error_from(&reply.error));
    }
    match reply.result.status {
        SCRIPT_COMPILED => Ok(ScriptCompileOutcome::Compiled(reply.result.script_id)),
        SCRIPT_COMPILE_THROWN => Ok(
            ScriptCompileOutcome::ParseError(script_exception(&reply.result.exception)),
        ),
        status => Err(
            unknown_status_error("V8 returned unknown classic-script compile status ", status),
        ),
    }
}

/// Reads a run.
pub fn run_outcome(reply: CallReply<RawScriptRunOutcome>, unknown: &str) -> (result: Result<
    ScriptRunOutcome,
    Error,
>)
    ensures
        reply.reads_run(unknown@, result),
{
    if reply.succeeded == 0 {
        return Err(error_from(&reply.error));
    }
    match reply.result.status {
        SCRIPT_RUN_COMPLETED => Ok(ScriptRunOutcome::Completed),
        SCRIPT_RUN_THROWN => Ok(
            ScriptRunOutcome::Thrown(script_exception(&reply.result.exception)),
        ),
        SCRIPT_RUN_TERMINATED => Ok(ScriptRunOutcome::Terminated),
        status => Err(unknown_status_error(unknown, status)),
    }
}

/// Reads a microtask checkpoint.
pub fn checkpoint_outcome(reply: CallReply<RawScriptRunOutcome>) -> (result: Result<
    ScriptRunOutcome,
    Error,
>)
    ensures
        reply.reads_checkpoint(result),
{
    if reply.succeeded == 0 {
        return Err(error_from(&reply.error));
    }
    match reply.result.status {
        SCRIPT_RUN_COMPLETED => Ok(ScriptRunOutcome::Completed),
        SCRIPT_RUN_TERMINATED => Ok(ScriptRunOutcome::Terminated),
        status => Err(
            unknown_status_error("V8 returned unknown microtask checkpoint status ", status),
        ),
    }
}

/// What one pull for a pending job error makes of the errors pulled so far.
pub enum JobErrorStep {
    /// The pull delivered an error, which now stands last.
    More(Vec<JobError>),
    /// The pull ended the collection.
    Done(Result<Vec<JobError>, Error>),
}

/// Takes in one pull: an error is added behind those so far, an empty pull
/// hands them out as they are, and a failed pull hands out its own error.
pub fn absorb_job_error(errors: Vec<JobError>, reply: CallReply<RawJobError>) -> (step:
    JobErrorStep)
    ensures
        match step {
            JobErrorStep::Done(Err(error)) => reply.fails(error),
            JobErrorStep::Done(Ok(all)) => {
                &&& reply.succeeded != 0
                &&& reply.result.has_error == 0
                &&& all@ == errors@
            },
            JobErrorStep::More(all) => {
                &&& reply.succeeded != 0
                &&& reply.result.has_error != 0
                &&& all@.len() == errors@.len() + 1
                &&& all@.drop_last() == errors@
                &&& all@.last().reads(reply.result)
            },
        },
{
    if reply.succeeded == 0 {
        return JobErrorStep::Done(Err(error_from(&reply.error)));
    }
    if reply.result.has_error == 0 {
        return JobErrorStep::Done(Ok(errors));
    }
    let mut all = errors;
    all.push(job_error(&reply.result));
    assert(all@.drop_last() =~= errors@);
    JobErrorStep::More(all)
}

/// The two exceptions say the same.
pub open spec fn same_exception(a: ScriptException, b: ScriptException) -> bool {
    &&& a.message@ == b.message@
    &&& a.resource_name@ == b.resource_name@
    &&& a.stack@ == b.stack@
    &&& a.line_number == b.line_number
    &&& a.column_number == b.column_number
}

/// A run has one reading: two results read from the same reply agree in the
/// outcome, in every text and in every number.
pub proof fn run_readings_agree(
    reply: CallReply<RawScriptRunOutcome>,
    unknown: Seq<char>,
    a: Result<ScriptRunOutcome, Error>,
    b: Result<ScriptRunOutcome, Error>,
)
    requires
        reply.reads_run(unknown, a),
        reply.reads_run(unknown, b),
    ensures
        match (a, b) {
            (Ok(ScriptRunOutcome::Completed), Ok(ScriptRunOutcome::Completed)) => true,
            (Ok(ScriptRunOutcome::Thrown(a)), Ok(ScriptRunOutcome::Thrown(b))) => same_exception(
                a,
                b,
            ),
            (Ok(ScriptRunOutcome::Terminated), Ok(ScriptRunOutcome::Terminated)) => true,
            (Err(a), Err(b)) => a@ == b@,
            _ => false,
        },
{
}

/// A compilation has one reading.
pub proof fn compile_readings_agree(
    reply: CallReply<RawScriptCompileOutcome>,
    a: Result<ScriptCompileOutcome, Error>,
    b: Result<ScriptCompileOutcome, Error>,
)
    requires
        reply.reads_compile(a),
        reply.reads_compile(b),
    ensures
        match (a, b) {
            (
                Ok(ScriptCompileOutcome::Compiled(a)),
                Ok(ScriptCompileOutcome::Compiled(b)),
            ) => a == b,
            (
                Ok(ScriptCompileOutcome::ParseError(a)),
                Ok(ScriptCompileOutcome::ParseError(b)),
            ) => same_exception(a, b),
            (Err(a), Err(b)) => a@ == b@,
            _ => false,
        },
{
}

/// A run whose status is unknown is an error that names the status, although
/// the call succeeded; it is never taken for an outcome.
pub proof fn unknown_run_statuses_are_errors(
    reply: CallReply<RawScriptRunOutcome>,
    unknown: Seq<char>,
    result: Result<ScriptRunOutcome, Error>,
)
    requires
        reply.reads_run(unknown, result),
        reply.succeeded != 0,
        reply.result.status > SCRIPT_RUN_TERMINATED,
    ensures
        result matches Err(error) && error@ == unknown_status(unknown, reply.result.status),
{
}

/// A checkpoint never reports a throw, and a status other than completed and
/// terminated is an error that names it.
pub proof fn checkpoints_report_only_termination(
    reply: CallReply<RawScriptRunOutcome>,
    result: Result<ScriptRunOutcome, Error>,
)
    requires
        reply.reads_checkpoint(result),
        reply.succeeded != 0,
    ensures
        result is Ok <==> reply.result.status == SCRIPT_RUN_COMPLETED || reply.result.status
            == SCRIPT_RUN_TERMINATED,
        result matches Ok(outcome) ==> outcome == if reply.result.status == SCRIPT_RUN_TERMINATED {
            ScriptRunOutcome::Terminated
        } else {
            ScriptRunOutcome::Completed
        },
{
}

/// A job error names a realm exactly when the engine named one.
pub proof fn job_errors_name_their_realm(error: JobError, raw: RawJobError)
    requires
        error.reads(raw),
    ensures
        error.realm_id is None <==> raw.realm_id == RealmId(0),
        error.realm_id matches Some(realm_id) ==> realm_id == raw.realm_id,
{
}

/// An exception keeps every field of the storage it is read from, each from its
/// own place: the three texts from their own buffers, the line from the line and
/// the column from the column. Nothing else reads as that exception.
pub proof fn exceptions_keep_every_field(exception: ScriptException, raw: RawScriptException)
    ensures
        exception.reads(raw) <==> raw.message.spells(exception.message@)
            && raw.resource_name.spells(exception.resource_name@)
            && raw.stack.spells(exception.stack@) && exception.line_number == raw.line_number
            && exception.column_number == raw.column_number,
{
}

/// A job error keeps every field of the storage it is read from, line and column
/// each on its own, and names the realm that the storage names.
pub proof fn job_errors_keep_every_field(error: JobError, raw: RawJobError)
    ensures
        error.reads(raw) ==> error.exception.line_number == raw.exception.line_number,
        error.reads(raw) ==> error.exception.column_number == raw.exception.column_number,
        error.reads(raw) ==> raw.exception.message.spells(error.exception.message@),
        error.reads(raw) ==> raw.exception.resource_name.spells(error.exception.resource_name@),
        error.reads(raw) ==> raw.exception.stack.spells(error.exception.stack@),
        error.reads(raw) ==> (error.realm_id matches Some(realm_id) ==> realm_id == raw.realm_id),
        error.reads(raw) ==> (error.realm_id is None <==> raw.realm_id.0 == 0),
{
}

/// Storage that reports the same numbers is read as the same numbers: two job
/// errors agree in line, column and realm exactly when their storage does.
pub proof fn job_errors_tell_positions_apart(
    a: JobError,
    raw_a: RawJobError,
    b: JobError,
    raw_b: RawJobError,
)
    requires
        a.reads(raw_a),
        b.reads(raw_b),
    ensures
        a.exception.line_number == b.exception.line_number <==> raw_a.exception.line_number
            == raw_b.exception.line_number,
        a.exception.column_number == b.exception.column_number <==> raw_a.exception.column_number
            == raw_b.exception.column_number,
        a.realm_id == b.realm_id <==> raw_a.realm_id == raw_b.realm_id,
{
}

/// Whether a call succeeded decides how its reply is read: a failed call is read
/// as the error in its buffer, and any other as the result it left.
pub proof fn replies_follow_success<R>(reply: CallReply<R>, result: Result<R, Error>)
    requires
        reply.reads(result),
    ensures
        result is Err <==> reply.succeeded == 0,
        result matches Ok(value) ==> value == reply.result,
        result matches Err(error) ==> reply.error.spells(error@),
{
}

/// A boolean reply is true for every nonzero byte and false for zero alone, and
/// a failed call is neither.
pub proof fn boolean_replies_follow_the_byte(reply: CallReply<u8>, result: Result<bool, Error>)
    requires
        reply.reads_bool(result),
    ensures
        result matches Ok(true) <==> reply.succeeded != 0 && reply.result != 0,
        result matches Ok(false) <==> reply.succeeded != 0 && reply.result == 0,
        result is Err <==> reply.succeeded == 0,
        result matches Err(error) ==> reply.error.spells(error@),
{
}

/// The status alone decides how a run that succeeded ended: zero is completed,
/// one is thrown, two is terminated, and anything else is an error. What is
/// thrown is the exception in the reply, field by field.
pub proof fn run_statuses_decide_the_outcome(
    reply: CallReply<RawScriptRunOutcome>,
    unknown: Seq<char>,
    result: Result<ScriptRunOutcome, Error>,
)
    requires
        reply.reads_run(unknown, result),
    ensures
        result matches Ok(ScriptRunOutcome::Completed) <==> reply.succeeded != 0
            && reply.result.status == 0,
        result matches Ok(ScriptRunOutcome::Thrown(_)) <==> reply.succeeded != 0
            && reply.result.status == 1,
        result matches Ok(ScriptRunOutcome::Terminated) <==> reply.succeeded != 0
            && reply.result.status == 2,
        result is Err <==> reply.succeeded == 0 || reply.result.status > 2,
        result matches Ok(ScriptRunOutcome::Thrown(exception)) ==> {
            &&& reply.result.exception.message.spells(exception.message@)
            &&& reply.result.exception.resource_name.spells(exception.resource_name@)
            &&& reply.result.exception.stack.spells(exception.stack@)
            &&& exception.line_number == reply.result.exception.line_number
            &&& exception.column_number == reply.result.exception.column_number
        },
        result matches Err(error) ==> (reply.succeeded == 0 ==> reply.error.spells(error@)),
        result matches Err(error) ==> (reply.succeeded != 0 ==> error@ == unknown + text::decimal(
            reply.result.status as nat,
        )),
{
}

/// The status alone decides how a compilation that succeeded ended: zero hands
/// out the very script that the reply names, one is a parse error with the
/// exception in the reply, and anything else is an error.
pub proof fn compile_statuses_decide_the_outcome(
    reply: CallReply<RawScriptCompileOutcome>,
    result: Result<ScriptCompileOutcome, Error>,
)
    requires
        reply.reads_compile(result),
    ensures
        result matches Ok(ScriptCompileOutcome::Compiled(_)) <==> reply.succeeded != 0
            && reply.result.status == 0,
        result matches Ok(ScriptCompileOutcome::Compiled(script_id)) ==> script_id.0
            == reply.result.script_id.0,
        result matches Ok(ScriptCompileOutcome::ParseError(_)) <==> reply.succeeded != 0
            && reply.result.status == 1,
        result matches Ok(ScriptCompileOutcome::ParseError(exception)) ==> {
            &&& reply.result.exception.message.spells(exception.message@)
            &&& reply.result.exception.resource_name.spells(exception.resource_name@)
            &&& reply.result.exception.stack.spells(exception.stack@)
            &&& exception.line_number == reply.result.exception.line_number
            &&& exception.column_number == reply.result.exception.column_number
        },
        result is Err <==> reply.succeeded == 0 || reply.result.status > 1,
        result matches Err(error) ==> (reply.succeeded == 0 ==> reply.error.spells(error@)),
        result matches Err(error) ==> (reply.succeeded != 0 ==> error@
            == "V8 returned unknown classic-script compile status "@ + text::decimal(
            reply.result.status as nat,
        )),
{
}

/// Two compilations hand out the same script exactly when the engine named the
/// same one.
pub proof fn compilations_tell_scripts_apart(
    a: CallReply<RawScriptCompileOutcome>,
    script_a: ScriptId,
    b: CallReply<RawScriptCompileOutcome>,
    script_b: ScriptId,
)
    requires
        a.reads_compile(Ok(ScriptCompileOutcome::Compiled(script_a))),
        b.reads_compile(Ok(ScriptCompileOutcome::Compiled(script_b))),
    ensures
        script_a == script_b <==> a.result.script_id == b.result.script_id,
{
}

/// The status alone decides how a checkpoint that succeeded ended: zero is
/// completed, two is terminated, and anything else, one included, is an error
/// that names it.
pub proof fn checkpoint_statuses_decide_the_outcome(
    reply: CallReply<RawScriptRunOutcome>,
    result: Result<ScriptRunOutcome, Error>,
)
    requires
        reply.reads_checkpoint(result),
    ensures
        result matches Ok(ScriptRunOutcome::Completed) <==> reply.succeeded != 0
            && reply.result.status == 0,
        result matches Ok(ScriptRunOutcome::Terminated) <==> reply.succeeded != 0
            && reply.result.status == 2,
        result is Err <==> reply.succeeded == 0 || reply.result.status == 1 || reply.result.status
            > 2,
        result matches Err(error) ==> (reply.succeeded == 0 ==> reply.error.spells(error@)),
        result matches Err(error) ==> (reply.succeeded != 0 ==> error@
            == "V8 returned unknown microtask checkpoint status "@ + text::decimal(
            reply.result.status as nat,
        )),
{
}

/// Messages about unknown statuses tell the statuses apart, and end in the
/// number itself.
pub proof fn unknown_statuses_are_named(unknown: Seq<char>, a: u32, b: u32)
    ensures
        unknown_status(unknown, a) == unknown + text::decimal(a as nat),
        unknown_status(unknown, a) == unknown_status(unknown, b) <==> a == b,
{
    if unknown_status(unknown, a) == unknown_status(unknown, b) {
        let spelled_a = text::decimal(a as nat);
        let spelled_b = text::decimal(b as nat);
        assert(unknown_status(unknown, a).skip(unknown.len() as int) =~= spelled_a);
        assert(unknown_status(unknown, b).skip(unknown.len() as int) =~= spelled_b);
        text::decimals_tell_numbers_apart(a as nat, b as nat);
    }
}

/// The storage lent for an exception says nothing yet: empty texts and no
/// position.
pub proof fn fresh_exceptions_are_blank(raw: RawScriptException)
    ensures
        raw.fresh() <==> raw.message.fresh() && raw.resource_name.fresh() && raw.stack.fresh()
            && raw.line_number == 0 && raw.column_number == 0,
{
}

/// The storage lent for a run, a compilation and a job error starts from zero:
/// the first status, no script, no realm, no error, and a blank exception.
pub proof fn fresh_outcomes_start_from_zero(
    run: RawScriptRunOutcome,
    compilation: RawScriptCompileOutcome,
    job: RawJobError,
)
    ensures
        run.fresh() <==> run.status == 0 && run.exception.fresh(),
        compilation.fresh() <==> compilation.status == 0 && compilation.script_id.0 == 0
            && compilation.exception.fresh(),
        job.fresh() <==> job.realm_id.0 == 0 && job.has_error == 0 && job.exception.fresh(),
{
}

} // verus!
