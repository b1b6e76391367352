use workflow_poll::client::{APIClient, ClientError};
use workflow_poll::session::{Action, Event, Interval, PollSession};
use workflow_poll::status::{Classification, DataItem, Progress, Response, StatusInfo};

fn item(started: bool, completed: bool, state: &str) -> DataItem {
    DataItem { did_start: started, did_complete: completed, current_state: state.to_string() }
}

fn snapshot(code: u16, message: &str, data: Vec<DataItem>) -> Response {
    Response { status_info: StatusInfo { status_code: code, message: message.to_string() }, data }
}

fn reported(action: &Action) -> Option<String> {
    match action {
        Action::Report(s) => Some(s.clone()),
        _ => None,
    }
}

#[test]
fn empty_items_never_complete() {
    assert!(!snapshot(200, "", vec![]).is_complete());
    assert!(!snapshot(503, "x", vec![]).is_complete());
}

#[test]
fn complete_only_when_started_and_completed() {
    assert!(snapshot(200, "", vec![item(true, true, "Done")]).is_complete());
    assert!(!snapshot(200, "", vec![item(true, false, "Run")]).is_complete());
    assert!(!snapshot(200, "", vec![item(false, true, "Odd")]).is_complete());
    assert!(!snapshot(200, "", vec![item(false, false, "Pending")]).is_complete());
    // only the first item counts
    assert!(!snapshot(200, "", vec![item(false, false, "A"), item(true, true, "B")]).is_complete());
    assert!(snapshot(200, "", vec![item(true, true, "A"), item(false, false, "B")]).is_complete());
}

#[test]
fn status_code_predicates() {
    assert!(snapshot(200, "", vec![]).is_status_ok());
    assert!(!snapshot(201, "", vec![]).is_status_ok());
    assert!(snapshot(401, "", vec![]).is_unauthorized());
    assert!(!snapshot(403, "", vec![]).is_unauthorized());
}

#[test]
fn classify_each_outcome() {
    match snapshot(200, "ok", vec![item(false, false, "Pending")]).classify() {
        Classification::Valid(s) => assert_eq!(s, "Pending"),
        other => panic!("unexpected {:?}", other),
    }
    match snapshot(200, "ok", vec![]).classify() {
        Classification::Valid(s) => assert_eq!(s, ""),
        other => panic!("unexpected {:?}", other),
    }
    assert!(matches!(snapshot(401, "token expired", vec![]).classify(), Classification::Unauthorized));
    match snapshot(503, "service unavailable", vec![]).classify() {
        Classification::OtherError(m) => assert_eq!(m, "service unavailable"),
        other => panic!("unexpected {:?}", other),
    }
}

#[test]
fn progress_lines() {
    assert!(matches!(snapshot(200, "", vec![item(true, false, "Run")]).progress(), Progress::StillRunning));
    match snapshot(200, "", vec![item(true, true, "Succeeded")]).progress() {
        Progress::Finished(s) => assert_eq!(s, "Succeeded"),
        other => panic!("unexpected {:?}", other),
    }
    match snapshot(500, "boom", vec![]).progress() {
        Progress::QueryFailed(m) => assert_eq!(m, "boom"),
        other => panic!("unexpected {:?}", other),
    }
}

#[test]
fn interval_seconds() {
    assert_eq!(Interval::Short.seconds(), 30);
    assert_eq!(Interval::Long.seconds(), 600);
}

#[test]
fn scenario_pending_first_report() {
    let mut s = PollSession::new();
    let doc = snapshot(200, "ok", vec![item(false, false, "Pending")]);
    assert!(!doc.is_complete());
    let a = s.step(Event::Status(doc));
    assert_eq!(reported(&a), Some("Pending".to_string()));
    assert_eq!(s.interval, Interval::Short);
    assert_eq!(s.last_state, "");
    assert!(matches!(s.step(Event::Reported), Action::Sleep(30)));
    assert_eq!(s.last_state, "Pending");
    // same state again: no report
    let a = s.step(Event::Status(snapshot(200, "ok", vec![item(false, false, "Pending")])));
    assert!(matches!(a, Action::Sleep(30)));
}

#[test]
fn scenario_succeeded_switches_to_long_interval() {
    let mut s = PollSession::new();
    s.step(Event::Status(snapshot(200, "", vec![item(true, false, "Running")])));
    s.step(Event::Reported);
    let doc = snapshot(200, "ok", vec![item(true, true, "Succeeded")]);
    assert!(doc.is_complete());
    let a = s.step(Event::Status(doc));
    assert_eq!(reported(&a), Some("Succeeded".to_string()));
    assert_eq!(s.interval, Interval::Long);
    assert!(matches!(s.step(Event::Reported), Action::Sleep(600)));
    assert_eq!(s.last_state, "Succeeded");
    let a = s.step(Event::Status(snapshot(200, "ok", vec![item(true, true, "Succeeded")])));
    assert!(matches!(a, Action::Sleep(600)));
}

#[test]
fn scenario_unauthorized_finishes() {
    let mut s = PollSession::new();
    assert!(matches!(s.step(Event::Status(snapshot(401, "token expired", vec![]))), Action::Finish));
    assert_eq!(s.last_state, "");
    // also with accumulated state and a valid-looking item
    s.step(Event::Status(snapshot(200, "", vec![item(true, true, "Succeeded")])));
    s.step(Event::Reported);
    let a = s.step(Event::Status(snapshot(401, "token expired", vec![item(true, true, "Other")])));
    assert!(matches!(a, Action::Finish));
    assert_eq!(s.last_state, "Succeeded");
    assert_eq!(s.interval, Interval::Long);
}

#[test]
fn scenario_service_unavailable_keeps_interval() {
    let mut s = PollSession::new();
    let a = s.step(Event::Status(snapshot(503, "service unavailable", vec![item(true, false, "X")])));
    assert!(matches!(a, Action::Sleep(30)));
    assert_eq!(s.last_state, "");
    s.step(Event::Status(snapshot(200, "", vec![item(true, true, "Succeeded")])));
    s.step(Event::Reported);
    let a = s.step(Event::Status(snapshot(503, "service unavailable", vec![item(true, false, "X")])));
    assert!(matches!(a, Action::Sleep(600)));
    assert_eq!(s.last_state, "Succeeded");
    assert_eq!(s.interval, Interval::Long);
    assert!(s.pending.is_none());
}

#[test]
fn scenario_empty_data_is_not_reported() {
    let doc = snapshot(200, "ok", vec![]);
    assert!(!doc.is_complete());
    assert_eq!(doc.current_state(), "");
    let mut s = PollSession::new();
    assert!(matches!(s.step(Event::Status(snapshot(200, "ok", vec![]))), Action::Sleep(30)));
    s.step(Event::Status(snapshot(200, "", vec![item(false, false, "Pending")])));
    s.step(Event::Reported);
    assert!(matches!(s.step(Event::Status(doc)), Action::Sleep(30)));
    assert_eq!(s.last_state, "Pending");
}

#[test]
fn distinct_states_reported_once_each_in_order() {
    let mut s = PollSession::new();
    let mut reports = Vec::new();
    for state in ["Pending", "Running", "Running", "Running", "Succeeded", "Succeeded"] {
        let a = s.step(Event::Status(snapshot(200, "", vec![item(false, false, state)])));
        if let Some(r) = reported(&a) {
            reports.push(r.clone());
            s.step(Event::Reported);
            assert_eq!(s.last_state, r);
        }
    }
    assert_eq!(reports, vec!["Pending", "Running", "Succeeded"]);
}

#[test]
fn wake_fetches_and_failure_aborts() {
    let mut s = PollSession::new();
    assert!(matches!(s.step(Event::Woke), Action::Fetch));
    match s.step(Event::Failed("connection refused".to_string())) {
        Action::Abort(e) => assert_eq!(e, "connection refused"),
        other => panic!("unexpected {:?}", other),
    }
}

#[test]
fn reported_without_pending_changes_nothing() {
    let mut s = PollSession::new();
    assert!(matches!(s.step(Event::Reported), Action::Sleep(30)));
    assert_eq!(s.last_state, "");
}

#[test]
fn status_request_builds_url() {
    let c = APIClient::new("http://host:8080", "abc\tdef");
    assert_eq!(c.url, "http://host:8080");
    let q = c.status_request().unwrap();
    assert_eq!(q.url, "http://host:8080/api/v1/task/status");
    assert_eq!(q.token, "abc\tdef");
}

#[test]
fn status_request_rejects_bad_token() {
    let c = APIClient::new("http://host", "abc\ndef");
    assert_eq!(c.status_request().err(), Some(ClientError::InvalidToken));
    let c = APIClient::new("http://host", "del\u{7f}");
    assert_eq!(c.status_request().err(), Some(ClientError::InvalidToken));
    let c = APIClient::new("http://host", "caf\u{e9}");
    assert!(c.status_request().is_ok());
}
