use modal::invocation::{
    CallAction, CallEvent, CallPhase, FunctionCall, FunctionCallInvocationType, FunctionCallType, RemoteResult,
    ResultData, POLL_INTERVAL_MILLIS,
};
use modal::Error;

fn started(args: Vec<u8>) -> FunctionCall {
    let (call, action) = FunctionCall::start("fu-1", args.clone());
    match action {
        CallAction::SendMap(req) => {
            assert_eq!(req.function_id, "fu-1");
            assert_eq!(req.parent_input_id, "");
            assert!(!req.return_exceptions);
            assert_eq!(req.function_call_type, FunctionCallType::Unary);
            assert_eq!(req.function_call_invocation_type, FunctionCallInvocationType::Sync);
            assert!(!req.from_spawn_map);
            assert_eq!(req.pipelined_inputs.len(), 1);
            let item = &req.pipelined_inputs[0];
            assert_eq!(item.idx, 0);
            assert_eq!(item.input.args, args);
            assert_eq!(item.input.data_format, 4);
            assert!(!item.input.final_input);
            assert!(item.input.method_name.is_none());
        }
        _ => panic!("expected the map request"),
    }
    assert_eq!(call.phase(), CallPhase::Mapping);
    call
}

fn polling() -> FunctionCall {
    let mut call = started(vec![1, 2]);
    let a = call.step(CallEvent::Mapped { function_call_id: "fc-9".to_string(), pipelined_inputs: 1 });
    assert!(matches!(a, CallAction::GetOutputs(_)));
    call
}

fn result(data: Option<ResultData>, exception: &str, exitcode: i32) -> CallEvent {
    CallEvent::Outputs(Some(RemoteResult { data, exception: exception.to_string(), exitcode }))
}

#[test]
fn pipelined_input_goes_straight_to_polling() {
    let mut call = started(vec![7]);
    match call.step(CallEvent::Mapped { function_call_id: "fc-1".to_string(), pipelined_inputs: 1 }) {
        CallAction::GetOutputs(req) => {
            assert_eq!(req.function_call_id, "fc-1");
            assert_eq!(req.max_values, 1);
            assert_eq!(req.timeout_secs, 5);
            assert_eq!(req.last_entry_id, "0-0");
            assert!(req.clear_on_success);
            assert_eq!(req.requested_at_secs, 0);
            assert!(req.input_jwts.is_empty());
            assert_eq!(req.start_idx, Some(0));
            assert_eq!(req.end_idx, Some(0));
        }
        _ => panic!("expected a request for outputs"),
    }
    assert_eq!(call.phase(), CallPhase::Polling);
}

#[test]
fn input_is_sent_when_not_pipelined() {
    let mut call = started(vec![5, 6]);
    match call.step(CallEvent::Mapped { function_call_id: "fc-2".to_string(), pipelined_inputs: 0 }) {
        CallAction::PutInputs(req) => {
            assert_eq!(req.function_id, "fu-1");
            assert_eq!(req.function_call_id, "fc-2");
            assert_eq!(req.inputs.len(), 1);
            assert_eq!(req.inputs[0].input.args, vec![5, 6]);
        }
        _ => panic!("expected the inputs"),
    }
    let a = call.step(CallEvent::InputsPut { accepted_inputs: 1 });
    assert!(matches!(a, CallAction::GetOutputs(r) if r.function_call_id == "fc-2"));
}

#[test]
fn refused_input_ends_the_call() {
    let mut call = started(vec![]);
    call.step(CallEvent::Mapped { function_call_id: "fc-3".to_string(), pipelined_inputs: 0 });
    let a = call.step(CallEvent::InputsPut { accepted_inputs: 0 });
    assert!(matches!(a, CallAction::Done(Err(Error::Other(m)))
        if m == "FunctionPutInputs returned no inputs - input queue full?"));
    assert_eq!(call.phase(), CallPhase::Finished);
}

#[test]
fn inline_output_is_returned() {
    let mut call = polling();
    let a = call.step(result(Some(ResultData::Inline(vec![9, 8])), "ignored", 3));
    assert!(matches!(a, CallAction::Done(Ok(b)) if b == vec![9, 8]));
    assert_eq!(call.phase(), CallPhase::Finished);
}

#[test]
fn blob_output_is_downloaded() {
    let mut call = polling();
    let a = call.step(result(Some(ResultData::Blob("bl-1".to_string())), "", 0));
    assert!(matches!(a, CallAction::GetBlob(r) if r.blob_id == "bl-1"));
    let a = call.step(CallEvent::BlobLocated { download_url: "https://blob/x".to_string() });
    assert!(matches!(a, CallAction::Download(u) if u == "https://blob/x"));
    let a = call.step(CallEvent::Downloaded { bytes: vec![4, 4] });
    assert!(matches!(a, CallAction::Done(Ok(b)) if b == vec![4, 4]));
}

#[test]
fn remote_exception_is_reported_before_exit_code() {
    let mut call = polling();
    let a = call.step(result(None, "ValueError: x", 2));
    assert!(matches!(a, CallAction::Done(Err(Error::Other(m))) if m == "Remote exception: ValueError: x"));
}

#[test]
fn remote_exit_code_is_reported() {
    let mut call = polling();
    let a = call.step(result(None, "", -3));
    assert!(matches!(a, CallAction::Done(Err(Error::Other(m))) if m == "Remote exit code: -3"));
    let mut call = polling();
    let a = call.step(result(None, "", 137));
    assert!(matches!(a, CallAction::Done(Err(Error::Other(m))) if m == "Remote exit code: 137"));
}

#[test]
fn empty_result_means_poll_again() {
    let mut call = polling();
    let a = call.step(result(None, "", 0));
    assert!(matches!(a, CallAction::Sleep(500)));
    assert_eq!(call.phase(), CallPhase::Waiting);
    let a = call.step(CallEvent::Waited);
    assert!(matches!(a, CallAction::GetOutputs(r) if r.function_call_id == "fc-9"));
}

#[test]
fn polls_until_the_output_arrives() {
    let mut call = polling();
    for _ in 0..61 {
        match call.step(CallEvent::Outputs(None)) {
            CallAction::Sleep(ms) => assert_eq!(ms, POLL_INTERVAL_MILLIS),
            _ => panic!("expected a wait"),
        }
        match call.step(CallEvent::Waited) {
            CallAction::GetOutputs(r) => assert_eq!(r.function_call_id, "fc-9"),
            _ => panic!("expected a request for outputs"),
        }
    }
    let a = call.step(result(Some(ResultData::Inline(vec![3, 1, 4])), "", 0));
    assert!(matches!(a, CallAction::Done(Ok(b)) if b == vec![3, 1, 4]));
}

#[test]
fn never_gives_up_waiting() {
    let mut call = polling();
    for _ in 0..1000 {
        assert!(matches!(call.step(CallEvent::Outputs(None)), CallAction::Sleep(500)));
        assert!(matches!(call.step(CallEvent::Waited), CallAction::GetOutputs(_)));
    }
    assert_eq!(call.phase(), CallPhase::Polling);
}

#[test]
fn replies_out_of_turn_are_not_taken() {
    let call = started(vec![]);
    assert!(call.accepts(&CallEvent::Mapped { function_call_id: String::new(), pipelined_inputs: 0 }));
    assert!(!call.accepts(&CallEvent::Waited));
    assert!(!call.accepts(&CallEvent::Outputs(None)));
    let mut call = polling();
    assert!(call.accepts(&CallEvent::Outputs(None)));
    call.step(result(Some(ResultData::Inline(vec![])), "", 0));
    assert!(!call.accepts(&CallEvent::Outputs(None)));
    assert!(!call.accepts(&CallEvent::Waited));
    assert!(!call.accepts(&CallEvent::Downloaded { bytes: vec![] }));
}

#[test]
fn input_is_always_marked_cbor() {
    let (mut call, action) = FunctionCall::start("fu-2", vec![1]);
    match action {
        CallAction::SendMap(req) => assert_eq!(req.pipelined_inputs[0].input.data_format, 4),
        _ => panic!("expected the map request"),
    }
    match call.step(CallEvent::Mapped { function_call_id: "fc".to_string(), pipelined_inputs: 0 }) {
        CallAction::PutInputs(req) => assert_eq!(req.inputs[0].input.data_format, 4),
        _ => panic!("expected the inputs"),
    }
}
