use fateloom::command::Command;
use fateloom::handler::{on_message, Reaction, Request, Response};
use fateloom::message::{
    EchoRequest, EchoResponse, HeartbeatMsg, IncrementalSequenceRequest, RandomNumberRequest,
    StatusCode, StopIncrementalSequenceRequest, StopRandomNumberRequest,
};
use fateloom::session::Session;

#[test]
fn requests_name_their_command() {
    let req = Request::EchoRequest(EchoRequest { message: String::new() });
    assert_eq!(req.command(), Command::EchoRequest);
    let req = Request::StopRandomNumberRequest(StopRandomNumberRequest { id: "a".to_string() });
    assert_eq!(req.command(), Command::StopRandomNumberRequest);
}

#[test]
fn responses_carry_their_ids() {
    let echo = Response::EchoResponse(EchoResponse { message: String::new() });
    assert_eq!(echo.cmd_id(), 11);
    let hb = Response::HeartbeatMsg(HeartbeatMsg { id: String::new(), timestamp: 0 });
    assert_eq!(hb.cmd_id(), 1);
}

#[test]
fn dispatch_echo_replies_under_echo_response() {
    let mut session = Session::new();
    let req = Request::EchoRequest(EchoRequest { message: "hi".to_string() });
    match on_message(&mut session, &req) {
        Reaction::Reply(rsp) => {
            assert_eq!(rsp.cmd_id(), 11);
            match rsp {
                Response::EchoResponse(e) => assert_eq!(e.message, "hi"),
                _ => panic!("echo answers with an echo response"),
            }
        }
        _ => panic!("echo replies at once"),
    }
}

#[test]
fn dispatch_starts_then_rejects_duplicate() {
    let mut session = Session::new();
    let req = Request::RandomNumberRequest(RandomNumberRequest {
        id: "a".to_string(),
        interval: 1,
        min: 0,
        max: 9,
    });
    match on_message(&mut session, &req) {
        Reaction::SpawnRandom(t) => {
            assert_eq!(t.id, "a");
            assert_eq!((t.interval, t.min, t.max), (1, 0, 9));
        }
        _ => panic!("a new id spawns a task"),
    }
    match on_message(&mut session, &req) {
        Reaction::Reply(rsp) => {
            assert_eq!(rsp.cmd_id(), 7);
            match rsp {
                Response::RandomNumberResponse(r) => {
                    assert_eq!(r.status.unwrap().code, StatusCode::InvalidRequest.code());
                }
                _ => panic!("a duplicate is answered with a random-number response"),
            }
        }
        _ => panic!("a duplicate is answered at once"),
    }
    assert!(session.is_task_active(&"a".to_string()));
}

#[test]
fn dispatch_sequence_start_and_stop() {
    let mut session = Session::new();
    let start = Request::IncrementalSequenceRequest(IncrementalSequenceRequest {
        id: "q".to_string(),
        interval: 0,
        start: 1,
        end: 3,
    });
    match on_message(&mut session, &start) {
        Reaction::SpawnSequence(t) => {
            assert_eq!(t.next, 1);
            assert_eq!(t.end, 3);
        }
        _ => panic!("a new id spawns a task"),
    }
    let stop = Request::StopIncrementalSequenceRequest(StopIncrementalSequenceRequest {
        id: "q".to_string(),
    });
    match on_message(&mut session, &stop) {
        Reaction::Reply(rsp) => {
            assert_eq!(rsp.cmd_id(), 10);
            match rsp {
                Response::StopIncrementalSequenceResponse(r) => {
                    assert_eq!(r.status.unwrap().code, StatusCode::Success.code());
                }
                _ => panic!("a stop is answered with a stop response"),
            }
        }
        _ => panic!("a stop replies at once"),
    }
    assert!(!session.is_task_active(&"q".to_string()));
    assert!(session.include_task(&"q".to_string()));
}

#[test]
fn dispatch_stop_random_of_unknown_id() {
    let mut session = Session::new();
    let stop = Request::StopRandomNumberRequest(StopRandomNumberRequest { id: "missing".to_string() });
    match on_message(&mut session, &stop) {
        Reaction::Reply(Response::StopRandomNumberResponse(r)) => {
            let status = r.status.unwrap();
            assert_eq!(status.code, StatusCode::InvalidRequest.code());
            assert_eq!(status.message, "Get invalid id missing");
        }
        _ => panic!("an unknown id is answered with a stop response"),
    }
}

#[test]
fn dispatch_heartbeat_keeps_id() {
    let mut session = Session::new();
    let req = Request::HeartbeatMsg(HeartbeatMsg { id: "h".to_string(), timestamp: 5 });
    match on_message(&mut session, &req) {
        Reaction::Reply(Response::HeartbeatMsg(h)) => {
            assert_eq!(h.id, "h");
            assert_ne!(h.timestamp, 5);
        }
        _ => panic!("a heartbeat is answered with a heartbeat"),
    }
}
