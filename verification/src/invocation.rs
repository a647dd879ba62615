use vstd::prelude::*;
use vstd::string::*;

use crate::error::Error;
use crate::serialization::{data_format_to_proto, format_code, DataFormat};
use crate::text::{decimal_text, i32_text};

verus! {

/// How long the client waits between two requests for outputs, in milliseconds.
pub const POLL_INTERVAL_MILLIS: u64 = 500;

/// How long the service may hold one request for outputs, in seconds.
pub const OUTPUTS_TIMEOUT_SECS: u32 = 5;

/// The kind of a function call: one input, one output.
#[derive(Debug, Clone, Copy, PartialEq, Eq, Structural)]
pub enum FunctionCallType {
    Unary,
}

/// How the caller waits for the call: it blocks until the output is there.
#[derive(Debug, Clone, Copy, PartialEq, Eq, Structural)]
pub enum FunctionCallInvocationType {
    Sync,
}

/// The arguments of one call, already encoded.
pub struct FunctionInput {
    pub args: Vec<u8>,
    pub final_input: bool,
    pub data_format: i32,
    pub method_name: Option<String>,
}

/// One input, with its position in the call.
pub struct FunctionPutInputsItem {
    pub idx: u32,
    pub input: FunctionInput,
    pub r2_failed: bool,
    pub r2_throughput_bytes_s: u32,
}

/// Opens a call of a function, with the input sent along where the service takes it.
pub struct FunctionMapRequest {
    pub function_id: String,
    pub parent_input_id: String,
    pub return_exceptions: bool,
    pub function_call_type: FunctionCallType,
    pub pipelined_inputs: Vec<FunctionPutInputsItem>,
    pub function_call_invocation_type: FunctionCallInvocationType,
    pub from_spawn_map: bool,
}

/// Sends the inputs of a call that the service did not take with the call.
pub struct FunctionPutInputsRequest {
    pub function_id: String,
    pub function_call_id: String,
    pub inputs: Vec<FunctionPutInputsItem>,
}

/// Asks for the outputs of a call. The times are whole seconds.
pub struct FunctionGetOutputsRequest {
    pub function_call_id: String,
    pub max_values: u32,
    pub timeout_secs: u32,
    pub last_entry_id: String,
    pub clear_on_success: bool,
    pub requested_at_secs: u32,
    pub input_jwts: Vec<String>,
    pub start_idx: Option<i32>,
    pub end_idx: Option<i32>,
}

/// Asks where a stored blob can be downloaded.
pub struct BlobGetRequest {
    pub blob_id: String,
}

/// Where the output of a finished call is.
pub enum ResultData {
    /// The output bytes, sent inline.
    Inline(Vec<u8>),
    /// The name of the blob that holds the output.
    Blob(String),
}

/// The result that the service reports for a call.
pub struct RemoteResult {
    pub data: Option<ResultData>,
    pub exception: String,
    pub exitcode: i32,
}

/// A reply of the service, or the end of a wait, handed to a call in progress.
pub enum CallEvent {
    /// The call was opened; the service took `pipelined_inputs` inputs with it.
    Mapped { function_call_id: String, pipelined_inputs: usize },
    /// The service accepted `accepted_inputs` inputs.
    InputsPut { accepted_inputs: usize },
    /// The outputs reply: the result of its first output, or `None` where
    /// there is no output or the first output has no result yet.
    Outputs(Option<RemoteResult>),
    /// Where the blob of the output can be downloaded.
    BlobLocated { download_url: String },
    /// The downloaded blob.
    Downloaded { bytes: Vec<u8> },
    /// The wait between two requests for outputs is over.
    Waited,
}

/// What the caller has to do next for a call in progress.
pub enum CallAction {
    SendMap(FunctionMapRequest),
    PutInputs(FunctionPutInputsRequest),
    GetOutputs(FunctionGetOutputsRequest),
    GetBlob(BlobGetRequest),
    /// Download the bytes at this address.
    Download(String),
    /// Wait this many milliseconds, then hand over `CallEvent::Waited`.
    Sleep(u64),
    /// The call is over, with its output or its error.
    Done(Result<Vec<u8>, Error>),
}

/// Where a call is in the protocol.
#[derive(Debug, Clone, Copy, PartialEq, Eq, Structural)]
pub enum CallPhase {
    Mapping,
    PuttingInputs,
    Polling,
    Waiting,
    FetchingBlob,
    Downloading,
    Finished,
}

/// A call of a deployed function in progress.
pub struct FunctionCall {
    function_id: String,
    args: Vec<u8>,
    call_id: String,
    phase: CallPhase,
}

/// The state of a call in progress.
pub struct CallView {
    pub function_id: Seq<char>,
    pub args: Seq<u8>,
    pub call_id: Seq<char>,
    pub phase: CallPhase,
}

impl View for FunctionCall {
    type V = CallView;

    closed spec fn view(&self) -> CallView {
        CallView {
            function_id: self.function_id@,
            args: self.args@,
            call_id: self.call_id@,
            phase: self.phase,
        }
    }
}

pub enum DataView {
    Inline(Seq<u8>),
    Blob(Seq<char>),
}

pub struct ResultView {
    pub data: Option<DataView>,
    pub exception: Seq<char>,
    pub exitcode: i32,
}

pub enum EventView {
    Mapped { call_id: Seq<char>, pipelined: nat },
    InputsPut { accepted: nat },
    Outputs(Option<ResultView>),
    BlobLocated(Seq<char>),
    Downloaded(Seq<u8>),
    Waited,
}

/// What the caller is told to do, over plain values.
pub enum ActionView {
    SendMap { function_id: Seq<char>, args: Seq<u8> },
    PutInputs { function_id: Seq<char>, call_id: Seq<char>, args: Seq<u8> },
    GetOutputs(Seq<char>),
    GetBlob(Seq<char>),
    Download(Seq<char>),
    Sleep(nat),
    /// The call ends with these output bytes.
    Deliver(Seq<u8>),
    /// The call ends with `Error::Other` carrying this text.
    Fail(Seq<char>),
}

impl View for ResultData {
    type V = DataView;

    open spec fn view(&self) -> DataView {
        match self {
            ResultData::Inline(b) => DataView::Inline(b@),
            ResultData::Blob(id) => DataView::Blob(id@),
        }
    }
}

impl View for RemoteResult {
    type V = ResultView;

    open spec fn view(&self) -> ResultView {
        ResultView {
            data: match self.data {
                Some(d) => Some(d@),
                None => None,
            },
            exception: self.exception@,
            exitcode: self.exitcode,
        }
    }
}

impl View for CallEvent {
    type V = EventView;

    open spec fn view(&self) -> EventView {
        match self {
            CallEvent::Mapped { function_call_id, pipelined_inputs } => EventView::Mapped {
                call_id: function_call_id@,
                pipelined: *pipelined_inputs as nat,
            },
            CallEvent::InputsPut { accepted_inputs } => EventView::InputsPut {
                accepted: *accepted_inputs as nat,
            },
            CallEvent::Outputs(r) => EventView::Outputs(
                match r {
                    Some(r) => Some(r@),
                    None => None,
                },
            ),
            CallEvent::BlobLocated { download_url } => EventView::BlobLocated(download_url@),
            CallEvent::Downloaded { bytes } => EventView::Downloaded(bytes@),
            CallEvent::Waited => EventView::Waited,
        }
    }
}

/// The text of the error when the service accepted none of the inputs.
pub open spec fn no_inputs_text() -> Seq<char> {
    "FunctionPutInputs returned no inputs - input queue full?"@
}

/// The text of the error for an exception raised by the remote function.
pub open spec fn exception_text(exception: Seq<char>) -> Seq<char> {
    "Remote exception: "@ + exception
}

/// The text of the error for a remote function that exited with a code other than zero.
pub open spec fn exit_code_text(code: i32) -> Seq<char> {
    "Remote exit code: "@ + decimal_text(code as int)
}

/// Which replies a call takes in each phase: exactly the reply to what it last asked for.
pub open spec fn expects(phase: CallPhase, e: EventView) -> bool {
    match phase {
        CallPhase::Mapping => e is Mapped,
        CallPhase::PuttingInputs => e is InputsPut,
        CallPhase::Polling => e is Outputs,
        CallPhase::Waiting => e is Waited,
        CallPhase::FetchingBlob => e is BlobLocated,
        CallPhase::Downloading => e is Downloaded,
        CallPhase::Finished => false,
    }
}

/// The state of a call that has come to its end.
pub open spec fn finished(s: CallView) -> CallView {
    CallView { phase: CallPhase::Finished, ..s }
}

/// A call begins by asking the service to open it, with its input sent along.
pub open spec fn call_start(function_id: Seq<char>, args: Seq<u8>) -> (CallView, ActionView) {
    (
        CallView { function_id, args, call_id: Seq::empty(), phase: CallPhase::Mapping },
        ActionView::SendMap { function_id, args },
    )
}

/// An outputs reply without a result: ask again after a wait, for as long as
/// the function has not completed.
pub open spec fn call_retry(s: CallView) -> (CallView, ActionView) {
    (CallView { phase: CallPhase::Waiting, ..s }, ActionView::Sleep(POLL_INTERVAL_MILLIS as nat))
}

/// An outputs reply with a result.
pub open spec fn call_on_result(s: CallView, r: ResultView) -> (CallView, ActionView) {
    match r.data {
        Some(DataView::Inline(bytes)) => (finished(s), ActionView::Deliver(bytes)),
        Some(DataView::Blob(id)) => (
            CallView { phase: CallPhase::FetchingBlob, ..s },
            ActionView::GetBlob(id),
        ),
        None => if r.exception.len() > 0 {
            (finished(s), ActionView::Fail(exception_text(r.exception)))
        } else if r.exitcode != 0 {
            (finished(s), ActionView::Fail(exit_code_text(r.exitcode)))
        } else {
            call_retry(s)
        },
    }
}

/// How a call goes on after a reply: its next state and what the caller does next.
pub open spec fn call_next(s: CallView, e: EventView) -> (CallView, ActionView) {
    match e {
        EventView::Mapped { call_id, pipelined } => if pipelined == 0 {
            (
                CallView { phase: CallPhase::PuttingInputs, call_id, ..s },
                ActionView::PutInputs { function_id: s.function_id, call_id, args: s.args },
            )
        } else {
            (CallView { phase: CallPhase::Polling, call_id, ..s }, ActionView::GetOutputs(call_id))
        },
        EventView::InputsPut { accepted } => if accepted == 0 {
            (finished(s), ActionView::Fail(no_inputs_text()))
        } else {
            (CallView { phase: CallPhase::Polling, ..s }, ActionView::GetOutputs(s.call_id))
        },
        EventView::Outputs(r) => match r {
            Some(r) => call_on_result(s, r),
            None => call_retry(s),
        },
        EventView::Waited => (
            CallView { phase: CallPhase::Polling, ..s },
            ActionView::GetOutputs(s.call_id),
        ),
        EventView::BlobLocated(url) => (
            CallView { phase: CallPhase::Downloading, ..s },
            ActionView::Download(url),
        ),
        EventView::Downloaded(bytes) => (finished(s), ActionView::Deliver(bytes)),
    }
}

/// The single input of a call: position zero, its bytes marked as CBOR, not
/// the last input of a stream, no method name.
pub open spec fn is_input_item(item: FunctionPutInputsItem, args: Seq<u8>) -> bool {
    &&& item.idx == 0
    &&& item.input.args@ == args
    &&& !item.input.final_input
    &&& item.input.data_format == format_code(DataFormat::Cbor)
    &&& item.input.method_name is None
    &&& !item.r2_failed
    &&& item.r2_throughput_bytes_s == 0
}

/// The request that opens a unary, blocking call with its input sent along.
pub open spec fn is_map_request(
    req: FunctionMapRequest,
    function_id: Seq<char>,
    args: Seq<u8>,
) -> bool {
    &&& req.function_id@ == function_id
    &&& req.parent_input_id@.len() == 0
    &&& !req.return_exceptions
    &&& req.function_call_type == FunctionCallType::Unary
    &&& req.pipelined_inputs@.len() == 1
    &&& is_input_item(req.pipelined_inputs@[0], args)
    &&& req.function_call_invocation_type == FunctionCallInvocationType::Sync
    &&& !req.from_spawn_map
}

/// The request that sends the single input of an open call.
pub open spec fn is_put_request(
    req: FunctionPutInputsRequest,
    function_id: Seq<char>,
    call_id: Seq<char>,
    args: Seq<u8>,
) -> bool {
    &&& req.function_id@ == function_id
    &&& req.function_call_id@ == call_id
    &&& req.inputs@.len() == 1
    &&& is_input_item(req.inputs@[0], args)
}

/// The request for at most one output of a call, from its first input.
pub open spec fn is_outputs_request(req: FunctionGetOutputsRequest, call_id: Seq<char>) -> bool {
    &&& req.function_call_id@ == call_id
    &&& req.max_values == 1
    &&& req.timeout_secs == OUTPUTS_TIMEOUT_SECS
    &&& req.last_entry_id@ == "0-0"@
    &&& req.clear_on_success
    &&& req.requested_at_secs == 0
    &&& req.input_jwts@.len() == 0
    &&& req.start_idx == Some(0i32)
    &&& req.end_idx == Some(0i32)
}

/// An action of the caller matches its description over plain values, field by field.
pub open spec fn action_fits(a: ActionView, x: CallAction) -> bool {
    match a {
        ActionView::SendMap { function_id, args } => x matches CallAction::SendMap(req)
            && is_map_request(req, function_id, args),
        ActionView::PutInputs { function_id, call_id, args } => x matches CallAction::PutInputs(req)
            && is_put_request(req, function_id, call_id, args),
        ActionView::GetOutputs(call_id) => x matches CallAction::GetOutputs(req)
            && is_outputs_request(req, call_id),
        ActionView::GetBlob(id) => x matches CallAction::GetBlob(req) && req.blob_id@ == id,
        ActionView::Download(url) => x matches CallAction::Download(u) && u@ == url,
        ActionView::Sleep(ms) => x matches CallAction::Sleep(m) && m as nat == ms,
        ActionView::Deliver(bytes) => x matches CallAction::Done(Ok(b)) && b@ == bytes,
        ActionView::Fail(text) => x matches CallAction::Done(Err(Error::Other(m))) && m@ == text,
    }
}

/// The state after `n` rounds in which the outputs reply brings no result
/// and the wait that follows ends.
pub open spec fn idle_rounds(s: CallView, n: nat) -> CallView
    decreases n,
{
    if n == 0 {
        s
    } else {
        let waiting = call_next(idle_rounds(s, (n - 1) as nat), EventView::Outputs(None)).0;
        call_next(waiting, EventView::Waited).0
    }
}

/// A call that has come to its end takes no more replies.
pub proof fn lemma_finished_call_takes_no_reply(s: CallView, e: EventView)
    requires
        s.phase == CallPhase::Finished,
    ensures
        !expects(s.phase, e),
{
}

/// A reply ends the call exactly when the caller is told the outcome, the
/// output or an error.
pub proof fn lemma_outcome_exactly_at_end(s: CallView, e: EventView)
    requires
        expects(s.phase, e),
    ensures
        (call_next(s, e).0.phase == CallPhase::Finished) <==> (call_next(s, e).1 is Deliver
            || call_next(s, e).1 is Fail),
{
}

/// Each reply keeps the function and the arguments of the call.
pub proof fn lemma_call_keeps_its_input(s: CallView, e: EventView)
    requires
        expects(s.phase, e),
    ensures
        call_next(s, e).0.function_id == s.function_id,
        call_next(s, e).0.args == s.args,
{
}

proof fn lemma_idle_rounds_stay(s: CallView, k: nat)
    requires
        s.phase == CallPhase::Polling,
    ensures
        idle_rounds(s, k) == s,
    decreases k,
{
    if k > 0 {
        lemma_idle_rounds_stay(s, (k - 1) as nat);
    }
}

/// Waiting for the output: however many outputs replies come without a
/// result, the call does not give up. After each it waits
/// `POLL_INTERVAL_MILLIS` and asks again for the outputs of the same call,
/// and a result that then arrives inline ends the call with its bytes.
pub proof fn lemma_polls_until_output(s: CallView, n: nat, r: ResultView, bytes: Seq<u8>)
    requires
        s.phase == CallPhase::Polling,
        r.data == Some(DataView::Inline(bytes)),
    ensures
        idle_rounds(s, n) == s,
        call_next(idle_rounds(s, n), EventView::Outputs(None)).1 == ActionView::Sleep(POLL_INTERVAL_MILLIS as nat),
        call_next(call_next(idle_rounds(s, n), EventView::Outputs(None)).0, EventView::Waited).1
            == ActionView::GetOutputs(s.call_id),
        call_next(idle_rounds(s, n), EventView::Outputs(Some(r))).1 == ActionView::Deliver(bytes),
{
    lemma_idle_rounds_stay(s, n);
}

/// The arguments of a call go out marked as CBOR, whatever else is set.
pub proof fn lemma_input_marked_cbor(function_id: Seq<char>, args: Seq<u8>, req: FunctionMapRequest)
    requires
        action_fits(call_start(function_id, args).1, CallAction::SendMap(req)),
    ensures
        req.pipelined_inputs@[0].input.data_format == 4,
{
}

/// An output sent inline ends the call with exactly those bytes, whatever
/// else the result reports.
pub proof fn lemma_inline_output_delivered(s: CallView, r: ResultView, bytes: Seq<u8>)
    requires
        s.phase == CallPhase::Polling,
        r.data == Some(DataView::Inline(bytes)),
    ensures
        call_next(s, EventView::Outputs(Some(r))) == (finished(s), ActionView::Deliver(bytes)),
{
}

/// An output stored as a blob is located, downloaded, and the downloaded
/// bytes end the call.
pub proof fn lemma_blob_output_delivered(s: CallView, r: ResultView, blob_id: Seq<char>, url: Seq<char>, bytes: Seq<u8>)
    requires
        s.phase == CallPhase::Polling,
        r.data == Some(DataView::Blob(blob_id)),
    ensures
        call_next(s, EventView::Outputs(Some(r))).1 == ActionView::GetBlob(blob_id),
        call_next(call_next(s, EventView::Outputs(Some(r))).0, EventView::BlobLocated(url)).1
            == ActionView::Download(url),
        call_next(
            call_next(call_next(s, EventView::Outputs(Some(r))).0, EventView::BlobLocated(url)).0,
            EventView::Downloaded(bytes),
        ).1 == ActionView::Deliver(bytes),
{
}

/// Without output data, a remote exception is reported before an exit code.
pub proof fn lemma_exception_before_exit_code(s: CallView, r: ResultView)
    requires
        s.phase == CallPhase::Polling,
        r.data is None,
        r.exception.len() > 0,
    ensures
        call_next(s, EventView::Outputs(Some(r))).1 == ActionView::Fail(exception_text(r.exception)),
{
}

/// The input goes to the service once: with the request that opens the
/// call, and again in its own request only where the service took none
/// with it.
pub proof fn lemma_input_sent_where_not_taken(s: CallView, call_id: Seq<char>, pipelined: nat)
    requires
        s.phase == CallPhase::Mapping,
    ensures
        (call_next(s, EventView::Mapped { call_id, pipelined }).1 is PutInputs) <==> pipelined == 0,
        pipelined > 0 ==> call_next(s, EventView::Mapped { call_id, pipelined }).1
            == ActionView::GetOutputs(call_id),
{
}

/// The reply that answers what the caller was told to do: the opened call
/// answers the request that opens it, the accepted inputs answer the inputs,
/// an outputs reply answers a request for outputs, a blob's address answers
/// a request for it, the downloaded bytes answer a download, and the end of
/// the wait answers a wait. An outcome asks for no reply.
pub open spec fn answers(a: ActionView, e: EventView) -> bool {
    match a {
        ActionView::SendMap { .. } => e is Mapped,
        ActionView::PutInputs { .. } => e is InputsPut,
        ActionView::GetOutputs(_) => e is Outputs,
        ActionView::GetBlob(_) => e is BlobLocated,
        ActionView::Download(_) => e is Downloaded,
        ActionView::Sleep(_) => e is Waited,
        ActionView::Deliver(_) => false,
        ActionView::Fail(_) => false,
    }
}

/// A new call takes exactly the answer to the request that opens it.
pub proof fn lemma_start_takes_its_answer(function_id: Seq<char>, args: Seq<u8>, e: EventView)
    ensures
        expects(call_start(function_id, args).0.phase, e) <==> answers(call_start(function_id, args).1, e),
{
}

/// A call in progress takes exactly the answer to what it last asked for:
/// after each reply, the replies it takes next are those that answer the
/// action it gives. In particular, after an outputs reply without a result
/// it takes the end of the wait, and after that the next outputs reply.
pub proof fn lemma_call_takes_each_answer(s: CallView, e: EventView, next: EventView)
    requires
        expects(s.phase, e),
    ensures
        expects(call_next(s, e).0.phase, next) <==> answers(call_next(s, e).1, next),
{
}

/// The accepted inputs decide how the call goes on: none accepted ends the
/// call with its error; otherwise it asks for the outputs of the call that
/// the service opened.
pub proof fn lemma_accepted_inputs(s: CallView, call_id: Seq<char>, accepted: nat)
    requires
        s.phase == CallPhase::Mapping,
    ensures
        ({
            let opened = call_next(s, EventView::Mapped { call_id, pipelined: 0 });
            &&& opened.1 == (ActionView::PutInputs { function_id: s.function_id, call_id, args: s.args })
            &&& accepted == 0 ==> call_next(opened.0, EventView::InputsPut { accepted }).1
                == ActionView::Fail(no_inputs_text())
            &&& accepted > 0 ==> call_next(opened.0, EventView::InputsPut { accepted }).1
                == ActionView::GetOutputs(call_id)
        }),
{
}

/// Without output data, an exception of zero length and an exit code of zero
/// mean that the function has not completed: the call waits and asks again.
/// Any other exit code ends the call with an error that names it.
pub proof fn lemma_exit_code_outcome(s: CallView, r: ResultView)
    requires
        s.phase == CallPhase::Polling,
        r.data is None,
        r.exception.len() == 0,
    ensures
        r.exitcode == 0 ==> call_next(s, EventView::Outputs(Some(r))).1 == ActionView::Sleep(
            POLL_INTERVAL_MILLIS as nat,
        ),
        r.exitcode != 0 ==> call_next(s, EventView::Outputs(Some(r))).1 == ActionView::Fail(
            exit_code_text(r.exitcode),
        ),
{
}

fn copy_bytes(v: &Vec<u8>) -> (r: Vec<u8>)
    ensures
        r@ == v@,
{
    let r = v.clone();
    assert(r@ =~= v@);
    r
}

fn input_item(args: Vec<u8>) -> (r: FunctionPutInputsItem)
    ensures
        is_input_item(r, args@),
{
    FunctionPutInputsItem {
        idx: 0,
        input: FunctionInput {
            args,
            final_input: false,
            data_format: data_format_to_proto(DataFormat::Cbor),
            method_name: None,
        },
        r2_failed: false,
        r2_throughput_bytes_s: 0,
    }
}

fn outputs_request(call_id: &String) -> (r: FunctionGetOutputsRequest)
    ensures
        is_outputs_request(r, call_id@),
{
    FunctionGetOutputsRequest {
        function_call_id: call_id.clone(),
        max_values: 1,
        timeout_secs: OUTPUTS_TIMEOUT_SECS,
        last_entry_id: String::from_str("0-0"),
        clear_on_success: true,
        requested_at_secs: 0,
        input_jwts: Vec::new(),
        start_idx: Some(0),
        end_idx: Some(0),
    }
}

fn failure(text: String) -> (r: CallAction)
    ensures
        r matches CallAction::Done(Err(Error::Other(m))) && m@ == text@,
{
    CallAction::Done(Err(Error::Other(text)))
}

impl FunctionCall {
    /// Begins a call of a function with arguments already encoded as CBOR:
    /// the first thing to do is to open the call, with the input sent along.
    pub fn start(function_id: &str, args: Vec<u8>) -> (r: (FunctionCall, CallAction))
        ensures
            r.0@ == call_start(function_id@, args@).0,
            action_fits(call_start(function_id@, args@).1, r.1),
    {
        let item = input_item(copy_bytes(&args));
        let mut pipelined_inputs = Vec::new();
        pipelined_inputs.push(item);
        let req = FunctionMapRequest {
            function_id: String::from_str(function_id),
            parent_input_id: String::new(),
            return_exceptions: false,
            function_call_type: FunctionCallType::Unary,
            pipelined_inputs,
            function_call_invocation_type: FunctionCallInvocationType::Sync,
            from_spawn_map: false,
        };
        let call = FunctionCall {
            function_id: String::from_str(function_id),
            args,
            call_id: String::new(),
            phase: CallPhase::Mapping,
        };
        (call, CallAction::SendMap(req))
    }

    /// Where the call is in the protocol.
    pub fn phase(&self) -> (r: CallPhase)
        ensures
            r == self@.phase,
    {
        self.phase
    }

    /// Whether the call takes this reply now.
    pub fn accepts(&self, event: &CallEvent) -> (r: bool)
        ensures
            r == expects(self@.phase, event@),
    {
        match (self.phase, event) {
            (CallPhase::Mapping, CallEvent::Mapped { .. }) => true,
            (CallPhase::PuttingInputs, CallEvent::InputsPut { .. }) => true,
            (CallPhase::Polling, CallEvent::Outputs(_)) => true,
            (CallPhase::Waiting, CallEvent::Waited) => true,
            (CallPhase::FetchingBlob, CallEvent::BlobLocated { .. }) => true,
            (CallPhase::Downloading, CallEvent::Downloaded { .. }) => true,
            _ => false,
        }
    }

    fn retry(&mut self) -> (r: CallAction)
        ensures
            final(self)@ == call_retry(old(self)@).0,
            action_fits(call_retry(old(self)@).1, r),
    {
        self.phase = CallPhase::Waiting;
        CallAction::Sleep(POLL_INTERVAL_MILLIS)
    }

    fn on_result(&mut self, result: RemoteResult) -> (r: CallAction)
        ensures
            final(self)@ == call_on_result(old(self)@, result@).0,
            action_fits(call_on_result(old(self)@, result@).1, r),
    {
        match result.data {
            Some(ResultData::Inline(bytes)) => {
                self.phase = CallPhase::Finished;
                CallAction::Done(Ok(bytes))
            },
            Some(ResultData::Blob(blob_id)) => {
                self.phase = CallPhase::FetchingBlob;
                CallAction::GetBlob(BlobGetRequest { blob_id })
            },
            None => {
                if result.exception.as_str().is_empty() {
                    if result.exitcode != 0 {
                        self.phase = CallPhase::Finished;
                        failure(String::from_str("Remote exit code: ").concat(i32_text(result.exitcode).as_str()))
                    } else {
                        self.retry()
                    }
                } else {
                    self.phase = CallPhase::Finished;
                    failure(String::from_str("Remote exception: ").concat(result.exception.as_str()))
                }
            },
        }
    }

    /// Hands a reply to the call, which moves on and says what to do next.
    pub fn step(&mut self, event: CallEvent) -> (r: CallAction)
        requires
            expects(old(self)@.phase, event@),
        ensures
            final(self)@ == call_next(old(self)@, event@).0,
            action_fits(call_next(old(self)@, event@).1, r),
    {
        match event {
            CallEvent::Mapped { function_call_id, pipelined_inputs } => {
                self.call_id = function_call_id;
                if pipelined_inputs == 0 {
                    self.phase = CallPhase::PuttingInputs;
                    let mut inputs = Vec::new();
                    inputs.push(input_item(copy_bytes(&self.args)));
                    CallAction::PutInputs(FunctionPutInputsRequest {
                        function_id: self.function_id.clone(),
                        function_call_id: self.call_id.clone(),
                        inputs,
                    })
                } else {
                    self.phase = CallPhase::Polling;
                    CallAction::GetOutputs(outputs_request(&self.call_id))
                }
            },
            CallEvent::InputsPut { accepted_inputs } => {
                if accepted_inputs == 0 {
                    self.phase = CallPhase::Finished;
                    failure(String::from_str("FunctionPutInputs returned no inputs - input queue full?"))
                } else {
                    self.phase = CallPhase::Polling;
                    CallAction::GetOutputs(outputs_request(&self.call_id))
                }
            },
            CallEvent::Outputs(result) => match result {
                Some(result) => self.on_result(result),
                None => self.retry(),
            },
            CallEvent::Waited => {
                self.phase = CallPhase::Polling;
                CallAction::GetOutputs(outputs_request(&self.call_id))
            },
            CallEvent::BlobLocated { download_url } => {
                self.phase = CallPhase::Downloading;
                CallAction::Download(download_url)
            },
            CallEvent::Downloaded { bytes } => {
                self.phase = CallPhase::Finished;
                CallAction::Done(Ok(bytes))
            },
        }
    }
}

} // verus!
