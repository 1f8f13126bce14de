use fateloom::handler::{
    heartbeat_response, on_echo_request, on_heartbeat_msg, on_incremental_sequence_request,
    on_random_number_request, on_stop_incremental_sequence_request,
    on_stop_random_number_request, IncrementalSequenceStart, RandomNumberStart,
};
use fateloom::message::{
    EchoRequest, HeartbeatMsg, IncrementalSequenceRequest, RandomNumberRequest, StatusCode,
    StopIncrementalSequenceRequest, StopRandomNumberRequest,
};
use fateloom::session::Session;
use fateloom::task::{IncrementalSequenceTask, RandomNumberTask};

fn random_request(id: &str, min: i32, max: i32) -> RandomNumberRequest {
    RandomNumberRequest { id: id.to_string(), interval: 0, min, max }
}

#[test]
fn sequence_one_to_three_then_deregisters() {
    let mut session = Session::new();
    let req = IncrementalSequenceRequest { id: "seq".to_string(), interval: 0, start: 1, end: 3 };
    let mut task = match on_incremental_sequence_request(&mut session, &req) {
        IncrementalSequenceStart::Spawned(t) => t,
        IncrementalSequenceStart::Rejected(_) => panic!("a new id is accepted"),
    };
    assert!(session.include_task(&"seq".to_string()));
    let mut numbers = Vec::new();
    while let Some(rsp) = task.tick(&mut session) {
        assert_eq!(rsp.id, "seq");
        assert!(rsp.status.is_none());
        numbers.push(rsp.number);
    }
    assert_eq!(numbers, vec![1, 2, 3]);
    assert!(!session.include_task(&"seq".to_string()));
}

#[test]
fn duplicate_random_start_is_rejected_and_first_keeps_running() {
    let mut session = Session::new();
    let first = match on_random_number_request(&mut session, &random_request("a", 1, 10)) {
        RandomNumberStart::Spawned(t) => t,
        RandomNumberStart::Rejected(_) => panic!("a new id is accepted"),
    };
    match on_random_number_request(&mut session, &random_request("a", 1, 10)) {
        RandomNumberStart::Rejected(rsp) => {
            assert_eq!(rsp.id, "a");
            let status = rsp.status.unwrap();
            assert_eq!(status.code, StatusCode::InvalidRequest.code());
            assert_eq!(status.message, "Already running task with id a");
        }
        RandomNumberStart::Spawned(_) => panic!("a running id is rejected"),
    }
    assert!(session.is_task_active(&"a".to_string()));
    let rsp = first.tick(&mut session).unwrap();
    assert!((1..=10).contains(&rsp.number));
    assert!(session.include_task(&"a".to_string()));
}

#[test]
fn stop_of_missing_id_reports_unknown_task() {
    let mut session = Session::new();
    let rsp = on_stop_random_number_request(
        &mut session,
        &StopRandomNumberRequest { id: "missing".to_string() },
    );
    assert_eq!(rsp.id, "missing");
    let status = rsp.status.unwrap();
    assert_eq!(status.code, StatusCode::InvalidRequest.code());
    assert_eq!(status.message, "Get invalid id missing");
    let rsp = on_stop_incremental_sequence_request(
        &mut session,
        &StopIncrementalSequenceRequest { id: "missing".to_string() },
    );
    let status = rsp.status.unwrap();
    assert_eq!(status.code, StatusCode::InvalidRequest.code());
    assert_eq!(status.message, "Get invalid id missing");
}

#[test]
fn stop_ends_a_random_task_at_its_next_tick() {
    let mut session = Session::new();
    let task = match on_random_number_request(&mut session, &random_request("r", 0, 5)) {
        RandomNumberStart::Spawned(t) => t,
        RandomNumberStart::Rejected(_) => panic!("a new id is accepted"),
    };
    assert!(task.tick(&mut session).is_some());
    let rsp = on_stop_random_number_request(&mut session, &StopRandomNumberRequest { id: "r".to_string() });
    let status = rsp.status.unwrap();
    assert_eq!(status.code, StatusCode::Success.code());
    assert_eq!(status.message, "Success");
    assert!(session.include_task(&"r".to_string()));
    assert!(!session.is_task_active(&"r".to_string()));
    assert!(matches!(
        on_random_number_request(&mut session, &random_request("r", 0, 5)),
        RandomNumberStart::Rejected(_)
    ));
    assert!(task.tick(&mut session).is_none());
    assert!(!session.include_task(&"r".to_string()));
}

#[test]
fn stop_ends_a_sequence_mid_way() {
    let mut session = Session::new();
    let req = IncrementalSequenceRequest { id: "s".to_string(), interval: 1, start: 5, end: 100 };
    let mut task = match on_incremental_sequence_request(&mut session, &req) {
        IncrementalSequenceStart::Spawned(t) => t,
        IncrementalSequenceStart::Rejected(_) => panic!("a new id is accepted"),
    };
    assert_eq!(task.tick(&mut session).unwrap().number, 5);
    assert_eq!(task.tick(&mut session).unwrap().number, 6);
    let rsp = on_stop_incremental_sequence_request(
        &mut session,
        &StopIncrementalSequenceRequest { id: "s".to_string() },
    );
    assert_eq!(rsp.status.unwrap().code, StatusCode::Success.code());
    assert!(task.tick(&mut session).is_none());
    assert!(!session.include_task(&"s".to_string()));
}

#[test]
fn duplicate_sequence_start_is_rejected() {
    let mut session = Session::new();
    let req = IncrementalSequenceRequest { id: "d".to_string(), interval: 0, start: 0, end: 0 };
    assert!(matches!(
        on_incremental_sequence_request(&mut session, &req),
        IncrementalSequenceStart::Spawned(_)
    ));
    match on_incremental_sequence_request(&mut session, &req) {
        IncrementalSequenceStart::Rejected(rsp) => {
            assert_eq!(rsp.status.unwrap().message, "Already running task with id d");
        }
        IncrementalSequenceStart::Spawned(_) => panic!("a running id is rejected"),
    }
}

#[test]
fn sequence_reaches_the_largest_end() {
    let mut session = Session::new();
    session.add_task(&"m".to_string());
    let mut task = IncrementalSequenceTask::new("m".to_string(), 0, i32::MAX - 1, i32::MAX);
    assert_eq!(task.tick(&mut session).unwrap().number, i32::MAX - 1);
    assert_eq!(task.tick(&mut session).unwrap().number, i32::MAX);
    assert!(task.tick(&mut session).is_none());
}

#[test]
fn empty_sequence_ends_at_once() {
    let mut task = IncrementalSequenceTask::new("e".to_string(), 0, 4, 3);
    assert!(task.step(true).is_none());
    assert_eq!(task.next, 4);
}

#[test]
fn random_numbers_stay_in_range() {
    let task = RandomNumberTask { id: "x".to_string(), interval: 0, min: -3, max: 3 };
    for _ in 0..200 {
        let n = task.step(true).unwrap().number;
        assert!((-3..=3).contains(&n));
    }
    let single = RandomNumberTask { id: "y".to_string(), interval: 0, min: 7, max: 7 };
    assert_eq!(single.step(true).unwrap().number, 7);
    let full = RandomNumberTask { id: "z".to_string(), interval: 0, min: i32::MIN, max: i32::MAX };
    assert!(full.step(true).is_some());
}

#[test]
fn random_task_with_empty_range_ends() {
    let mut session = Session::new();
    session.add_task(&"b".to_string());
    let task = RandomNumberTask { id: "b".to_string(), interval: 0, min: 2, max: 1 };
    assert!(task.tick(&mut session).is_none());
    assert!(!session.include_task(&"b".to_string()));
}

#[test]
fn registry_operations() {
    let mut session = Session::new();
    let id = "t".to_string();
    assert!(!session.include_task(&id));
    assert!(session.start_task(&id));
    assert!(!session.start_task(&id));
    assert!(session.is_task_active(&id));
    session.store_task(&id, false);
    assert!(!session.is_task_active(&id));
    assert!(session.cancel_task(&id));
    assert!(!session.cancel_task(&"other".to_string()));
    session.remove_task(&id);
    assert!(!session.include_task(&id));
    session.remove_task(&id);
    assert!(session.start_task(&id));
}

#[test]
fn heartbeat_keeps_id_and_stamps_time() {
    let rsp = on_heartbeat_msg(&HeartbeatMsg { id: "hb".to_string(), timestamp: 0 });
    assert_eq!(rsp.id, "hb");
    assert!(rsp.timestamp > 1_600_000_000_000);
}

#[test]
fn echo_returns_message() {
    let rsp = on_echo_request(&EchoRequest { message: "ping me".to_string() });
    assert_eq!(rsp.message, "ping me");
}

#[test]
fn heartbeat_response_carries_the_given_time() {
    let req = HeartbeatMsg { id: "hb".to_string(), timestamp: 17 };
    let rsp = heartbeat_response(&req, 1_700_000_000_123);
    assert_eq!(rsp.id, "hb");
    assert_eq!(rsp.timestamp, 1_700_000_000_123);
}

#[test]
fn send_failure_ends_a_task_and_removes_its_entry() {
    let mut session = Session::new();
    let req = IncrementalSequenceRequest { id: "f".to_string(), interval: 0, start: 1, end: 9 };
    let mut task = match on_incremental_sequence_request(&mut session, &req) {
        IncrementalSequenceStart::Spawned(t) => t,
        IncrementalSequenceStart::Rejected(_) => panic!("a new id is accepted"),
    };
    assert!(task.tick(&mut session).is_some());
    task.end_after_send_failure(&mut session);
    assert!(!session.include_task(&"f".to_string()));

    let rnd = match on_random_number_request(&mut session, &random_request("g", 0, 1)) {
        RandomNumberStart::Spawned(t) => t,
        RandomNumberStart::Rejected(_) => panic!("a new id is accepted"),
    };
    session.add_task(&"other".to_string());
    rnd.end_after_send_failure(&mut session);
    assert!(!session.include_task(&"g".to_string()));
    assert!(session.include_task(&"other".to_string()));
}
