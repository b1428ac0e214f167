use tsc_bridge::host::{BridgeError, CallOutcome, Host, RequestKind};

#[test]
fn replies_follow_enqueue_order() {
    let mut host: Host<&str> = Host::new();
    let a = host.enqueue(RequestKind::GetDiagnostics, "a");
    let b = host.enqueue(RequestKind::GetQuickInfo, "b");
    assert_eq!((a, b), (0, 1));
    let call = host.begin().unwrap();
    assert_eq!(call.ticket, a);
    assert_eq!(call.payload, "a");
    host.respond("[]".to_string());
    let reply = host.finish(CallOutcome::Returned);
    assert_eq!(reply.ticket, a);
    assert_eq!(reply.result, Ok("[]".to_string()));
    let call = host.begin().unwrap();
    assert_eq!(call.ticket, b);
    host.respond("{}".to_string());
    assert_eq!(host.finish(CallOutcome::Returned).ticket, b);
}

#[test]
fn only_one_call_in_flight() {
    let mut host: Host<u8> = Host::new();
    host.enqueue(RequestKind::GetCompletions, 1);
    host.enqueue(RequestKind::GetCompletions, 2);
    let first = host.begin().unwrap();
    assert!(host.begin().is_none());
    let reply = host.finish(CallOutcome::Returned);
    assert_eq!(reply.ticket, first.ticket);
    assert!(host.begin().is_some());
}

#[test]
fn each_request_gets_exactly_one_reply() {
    let mut host: Host<u8> = Host::new();
    for i in 0..3u8 {
        host.enqueue(RequestKind::GetNavigationTree, i);
    }
    let mut tickets = Vec::new();
    while let Some(call) = host.begin() {
        tickets.push(host.finish(CallOutcome::Returned).ticket);
        assert_eq!(tickets.last(), Some(&call.ticket));
    }
    assert_eq!(tickets, vec![0, 1, 2]);
    assert_eq!(host.accepted_count(), 3);
}

#[test]
fn missing_response_and_script_error() {
    let mut host: Host<()> = Host::new();
    host.enqueue(RequestKind::GetDefinition, ());
    host.enqueue(RequestKind::GetDefinition, ());
    host.begin().unwrap();
    assert_eq!(host.finish(CallOutcome::Returned).result, Err(BridgeError::NoResponse));
    host.begin().unwrap();
    host.respond("ignored".to_string());
    assert_eq!(
        host.finish(CallOutcome::Threw("boom".to_string())).result,
        Err(BridgeError::AnalyzerScriptError("boom".to_string()))
    );
}

#[test]
fn bootstrap_once_and_again_after_restart() {
    let mut host: Host<()> = Host::new();
    host.enqueue(RequestKind::GetDiagnostics, ());
    host.enqueue(RequestKind::GetDiagnostics, ());
    host.enqueue(RequestKind::Restart, ());
    host.enqueue(RequestKind::GetDiagnostics, ());
    let mut boots = Vec::new();
    let mut ids = Vec::new();
    while let Some(call) = host.begin() {
        boots.push(call.bootstrap);
        ids.push(call.id);
        host.respond("true".to_string());
        host.finish(CallOutcome::Returned);
    }
    assert_eq!(boots, vec![true, false, false, true]);
    assert_eq!(ids, vec![1, 2, 3, 4]);
    assert_eq!(host.last_id(), 4);
}

#[test]
fn method_names_on_the_wire() {
    assert_eq!(RequestKind::GetDiagnostics.method_name(), "getDiagnostics");
    assert_eq!(RequestKind::GetEncodedSemanticClassifications.method_name(), "getEncodedSemanticClassifications");
    assert_eq!(RequestKind::Restart.method_name(), "restart");
}
