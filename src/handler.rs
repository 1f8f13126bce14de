//! Request handlers. Each one takes a decoded request and the session, and
//! says what is sent back and which task, if any, is spawned.

use vstd::prelude::*;
use vstd::string::StringExecFns;
use crate::message::{
    EchoRequest, EchoResponse, HeartbeatMsg, IncrementalSequenceRequest,
    IncrementalSequenceResponse, RandomNumberRequest, RandomNumberResponse, Status, StatusCode,
    StopIncrementalSequenceRequest, StopIncrementalSequenceResponse, StopRandomNumberRequest,
    StopRandomNumberResponse,
};
use crate::cmd_id::{
    ECHO_RESPONSE, HEARTBEAT_MSG, INCREMENTAL_SEQUENCE_RESPONSE, RANDOM_NUMBER_RESPONSE,
    STOP_INCREMENTAL_SEQUENCE_RESPONSE, STOP_RANDOM_NUMBER_RESPONSE,
};
use crate::command::Command;
use crate::session::{after_start, after_stop, Session};
use crate::task::{IncrementalSequenceTask, RandomNumberTask};

verus! {

/// Relies on chrono's Utc::now and DateTime::timestamp_millis: the current
/// time in milliseconds since the Unix epoch. `Utc::now` measures the time
/// elapsed since the epoch, so the count is never negative.
#[verifier::external_body]
fn now_millis() -> (r: i64)
    ensures
        r >= 0,
{
    chrono::Utc::now().timestamp_millis()
}

/// The message of the status that rejects a start request for a running id.
pub open spec fn duplicate_message(id: Seq<char>) -> Seq<char> {
    "Already running task with id "@ + id
}

/// The message of the status that rejects a stop request for an unknown id.
pub open spec fn unknown_message(id: Seq<char>) -> Seq<char> {
    "Get invalid id "@ + id
}

/// Whether `s` is the status `code` with the message `message`.
pub open spec fn status_is(s: Option<Status>, code: StatusCode, message: Seq<char>) -> bool {
    s matches Some(st) && st.code == code.spec_code() && st.message@ == message
}

/// What a start request for a random-number stream led to: a rejection to
/// send back, or a new task for the caller to run.
pub enum RandomNumberStart {
    /// The id was running already: this response is sent back.
    Rejected(RandomNumberResponse),
    Spawned(RandomNumberTask),
}

/// What a start request for an incremental sequence led to: a rejection to
/// send back, or a new task for the caller to run.
pub enum IncrementalSequenceStart {
    /// The id was running already: this response is sent back.
    Rejected(IncrementalSequenceResponse),
    Spawned(IncrementalSequenceTask),
}

fn status_with(code: StatusCode, text: &str, id: &String) -> (r: Status)
    ensures
        r.code == code.spec_code(),
        r.message@ == text@ + id@,
{
    let mut message = String::from_str(text);
    message.append(id.as_str());
    Status { code: code.code(), message }
}

fn success_status() -> (r: Status)
    ensures
        r.code == StatusCode::Success.spec_code(),
        r.message@ == "Success"@,
{
    Status { code: StatusCode::Success.code(), message: String::from_str("Success") }
}

/// The answer to a heartbeat when the clock reads `now_ms` milliseconds
/// since the Unix epoch: the heartbeat's id with that time.
pub fn heartbeat_response(msg: &HeartbeatMsg, now_ms: i64) -> (r: HeartbeatMsg)
    ensures
        r.id@ == msg.id@,
        r.timestamp == now_ms,
{
    HeartbeatMsg { id: msg.id.clone(), timestamp: now_ms }
}

/// Answers a heartbeat with its id and the current time, read from the clock.
pub fn on_heartbeat_msg(msg: &HeartbeatMsg) -> (r: HeartbeatMsg)
    ensures
        r.id@ == msg.id@,
        r.timestamp >= 0,
{
    heartbeat_response(msg, now_millis())
}

/// Answers an echo request with its message.
pub fn on_echo_request(msg: &EchoRequest) -> (r: EchoResponse)
    ensures
        r.message@ == msg.message@,
{
    EchoResponse { message: msg.message.clone() }
}

/// Starts a random-number stream under the request's id, unless a task with
/// that id is registered already; then the request is rejected and the
/// running task is left as it was.
pub fn on_random_number_request(session: &mut Session, msg: &RandomNumberRequest) -> (r:
    RandomNumberStart)
    requires
        old(session).wf(),
    ensures
        final(session).wf(),
        final(session)@ == after_start(old(session)@, msg.id@),
        old(session)@.contains_key(msg.id@) ==> (r matches RandomNumberStart::Rejected(rsp)
            && rsp.id@ == msg.id@ && rsp.number == 0 && status_is(
            rsp.status,
            StatusCode::InvalidRequest,
            duplicate_message(msg.id@),
        )),
        !old(session)@.contains_key(msg.id@) ==> (r matches RandomNumberStart::Spawned(t) && t.id@
            == msg.id@ && t.interval == msg.interval && t.min == msg.min && t.max == msg.max),
{
    if session.start_task(&msg.id) {
        RandomNumberStart::Spawned(
            RandomNumberTask {
                id: msg.id.clone(),
                interval: msg.interval,
                min: msg.min,
                max: msg.max,
            },
        )
    } else {
        let status = status_with(StatusCode::InvalidRequest, "Already running task with id ", &msg.id);
        RandomNumberStart::Rejected(
            RandomNumberResponse { id: msg.id.clone(), number: 0, status: Some(status) },
        )
    }
}

/// Cancels the random-number stream with the request's id. The task's entry
/// stays until the task itself ends.
pub fn on_stop_random_number_request(session: &mut Session, msg: &StopRandomNumberRequest) -> (r:
    StopRandomNumberResponse)
    requires
        old(session).wf(),
    ensures
        final(session).wf(),
        final(session)@ == after_stop(old(session)@, msg.id@),
        r.id@ == msg.id@,
        old(session)@.contains_key(msg.id@) ==> status_is(r.status, StatusCode::Success, "Success"@),
        !old(session)@.contains_key(msg.id@) ==> status_is(
            r.status,
            StatusCode::InvalidRequest,
            unknown_message(msg.id@),
        ),
{
    let status = if session.cancel_task(&msg.id) {
        success_status()
    } else {
        status_with(StatusCode::InvalidRequest, "Get invalid id ", &msg.id)
    };
    StopRandomNumberResponse { id: msg.id.clone(), status: Some(status) }
}

/// Starts an incremental sequence under the request's id, unless a task with
/// that id is registered already; then the request is rejected and the
/// running task is left as it was.
pub fn on_incremental_sequence_request(
    session: &mut Session,
    msg: &IncrementalSequenceRequest,
) -> (r: IncrementalSequenceStart)
    requires
        old(session).wf(),
    ensures
        final(session).wf(),
        final(session)@ == after_start(old(session)@, msg.id@),
        old(session)@.contains_key(msg.id@) ==> (r matches IncrementalSequenceStart::Rejected(rsp)
            && rsp.id@ == msg.id@ && rsp.number == 0 && status_is(
            rsp.status,
            StatusCode::InvalidRequest,
            duplicate_message(msg.id@),
        )),
        !old(session)@.contains_key(msg.id@) ==> (r matches IncrementalSequenceStart::Spawned(t)
            && t.id@ == msg.id@ && t.interval == msg.interval && t.next == msg.start as i64 && t.end
            == msg.end),
{
    if session.start_task(&msg.id) {
        IncrementalSequenceStart::Spawned(
            IncrementalSequenceTask::new(msg.id.clone(), msg.interval, msg.start, msg.end),
        )
    } else {
        let status = status_with(StatusCode::InvalidRequest, "Already running task with id ", &msg.id);
        IncrementalSequenceStart::Rejected(
            IncrementalSequenceResponse { id: msg.id.clone(), number: 0, status: Some(status) },
        )
    }
}

/// Cancels the incremental sequence with the request's id. The task's entry
/// stays until the task itself ends.
pub fn on_stop_incremental_sequence_request(
    session: &mut Session,
    msg: &StopIncrementalSequenceRequest,
) -> (r: StopIncrementalSequenceResponse)
    requires
        old(session).wf(),
    ensures
        final(session).wf(),
        final(session)@ == after_stop(old(session)@, msg.id@),
        r.id@ == msg.id@,
        old(session)@.contains_key(msg.id@) ==> status_is(r.status, StatusCode::Success, "Success"@),
        !old(session)@.contains_key(msg.id@) ==> status_is(
            r.status,
            StatusCode::InvalidRequest,
            unknown_message(msg.id@),
        ),
{
    let status = if session.cancel_task(&msg.id) {
        success_status()
    } else {
        status_with(StatusCode::InvalidRequest, "Get invalid id ", &msg.id)
    };
    StopIncrementalSequenceResponse { id: msg.id.clone(), status: Some(status) }
}

/// A request whose payload has been decoded by the schema of its command.
pub enum Request {
    HeartbeatMsg(HeartbeatMsg),
    RandomNumberRequest(RandomNumberRequest),
    StopRandomNumberRequest(StopRandomNumberRequest),
    IncrementalSequenceRequest(IncrementalSequenceRequest),
    StopIncrementalSequenceRequest(StopIncrementalSequenceRequest),
    EchoRequest(EchoRequest),
}

impl Request {
    /// The command whose schema the request was decoded by.
    pub open spec fn spec_command(&self) -> Command {
        match self {
            Request::HeartbeatMsg(_) => Command::HeartbeatMsg,
            Request::RandomNumberRequest(_) => Command::RandomNumberRequest,
            Request::StopRandomNumberRequest(_) => Command::StopRandomNumberRequest,
            Request::IncrementalSequenceRequest(_) => Command::IncrementalSequenceRequest,
            Request::StopIncrementalSequenceRequest(_) => Command::StopIncrementalSequenceRequest,
            Request::EchoRequest(_) => Command::EchoRequest,
        }
    }

    pub fn command(&self) -> (r: Command)
        ensures
            r == self.spec_command(),
    {
        match self {
            Request::HeartbeatMsg(_) => Command::HeartbeatMsg,
            Request::RandomNumberRequest(_) => Command::RandomNumberRequest,
            Request::StopRandomNumberRequest(_) => Command::StopRandomNumberRequest,
            Request::IncrementalSequenceRequest(_) => Command::IncrementalSequenceRequest,
            Request::StopIncrementalSequenceRequest(_) => Command::StopIncrementalSequenceRequest,
            Request::EchoRequest(_) => Command::EchoRequest,
        }
    }
}

/// A response to be framed and sent to the client.
pub enum Response {
    HeartbeatMsg(HeartbeatMsg),
    RandomNumberResponse(RandomNumberResponse),
    StopRandomNumberResponse(StopRandomNumberResponse),
    IncrementalSequenceResponse(IncrementalSequenceResponse),
    StopIncrementalSequenceResponse(StopIncrementalSequenceResponse),
    EchoResponse(EchoResponse),
}

impl Response {
    /// The command id the response is framed under.
    pub open spec fn spec_cmd_id(&self) -> u16 {
        match self {
            Response::HeartbeatMsg(_) => HEARTBEAT_MSG,
            Response::RandomNumberResponse(_) => RANDOM_NUMBER_RESPONSE,
            Response::StopRandomNumberResponse(_) => STOP_RANDOM_NUMBER_RESPONSE,
            Response::IncrementalSequenceResponse(_) => INCREMENTAL_SEQUENCE_RESPONSE,
            Response::StopIncrementalSequenceResponse(_) => STOP_INCREMENTAL_SEQUENCE_RESPONSE,
            Response::EchoResponse(_) => ECHO_RESPONSE,
        }
    }

    pub fn cmd_id(&self) -> (r: u16)
        ensures
            r == self.spec_cmd_id(),
    {
        match self {
            Response::HeartbeatMsg(_) => HEARTBEAT_MSG,
            Response::RandomNumberResponse(_) => RANDOM_NUMBER_RESPONSE,
            Response::StopRandomNumberResponse(_) => STOP_RANDOM_NUMBER_RESPONSE,
            Response::IncrementalSequenceResponse(_) => INCREMENTAL_SEQUENCE_RESPONSE,
            Response::StopIncrementalSequenceResponse(_) => STOP_INCREMENTAL_SEQUENCE_RESPONSE,
            Response::EchoResponse(_) => ECHO_RESPONSE,
        }
    }
}

/// What handling one request asks of the connection: a response to send,
/// or an emitter to start, with no response for now.
pub enum Reaction {
    Reply(Response),
    SpawnRandom(RandomNumberTask),
    SpawnSequence(IncrementalSequenceTask),
}

/// Routes a decoded request to the handler of its command.
pub fn on_message(session: &mut Session, req: &Request) -> (r: Reaction)
    requires
        old(session).wf(),
    ensures
        final(session).wf(),
        match req {
            Request::HeartbeatMsg(m) => final(session)@ == old(session)@ && (r matches Reaction::Reply(
                Response::HeartbeatMsg(h),
            ) && h.id@ == m.id@ && h.timestamp >= 0),
            Request::EchoRequest(m) => final(session)@ == old(session)@ && (r matches Reaction::Reply(
                Response::EchoResponse(e),
            ) && e.message@ == m.message@),
            Request::RandomNumberRequest(m) => final(session)@ == after_start(old(session)@, m.id@)
                && (old(session)@.contains_key(m.id@) ==> (r matches Reaction::Reply(
                Response::RandomNumberResponse(rsp),
            ) && rsp.id@ == m.id@ && rsp.number == 0 && status_is(
                rsp.status,
                StatusCode::InvalidRequest,
                duplicate_message(m.id@),
            ))) && (!old(session)@.contains_key(m.id@) ==> (r matches Reaction::SpawnRandom(t)
                && t.id@ == m.id@ && t.interval == m.interval && t.min == m.min && t.max == m.max)),
            Request::IncrementalSequenceRequest(m) => final(session)@ == after_start(
                old(session)@,
                m.id@,
            ) && (old(session)@.contains_key(m.id@) ==> (r matches Reaction::Reply(
                Response::IncrementalSequenceResponse(rsp),
            ) && rsp.id@ == m.id@ && rsp.number == 0 && status_is(
                rsp.status,
                StatusCode::InvalidRequest,
                duplicate_message(m.id@),
            ))) && (!old(session)@.contains_key(m.id@) ==> (r matches Reaction::SpawnSequence(t)
                && t.id@ == m.id@ && t.interval == m.interval && t.next == m.start as i64 && t.end
                == m.end)),
            Request::StopRandomNumberRequest(m) => final(session)@ == after_stop(old(session)@, m.id@)
                && (r matches Reaction::Reply(Response::StopRandomNumberResponse(rsp)) && rsp.id@
                == m.id@ && (old(session)@.contains_key(m.id@) ==> status_is(
                rsp.status,
                StatusCode::Success,
                "Success"@,
            )) && (!old(session)@.contains_key(m.id@) ==> status_is(
                rsp.status,
                StatusCode::InvalidRequest,
                unknown_message(m.id@),
            ))),
            Request::StopIncrementalSequenceRequest(m) => final(session)@ == after_stop(
                old(session)@,
                m.id@,
            ) && (r matches Reaction::Reply(Response::StopIncrementalSequenceResponse(rsp))
                && rsp.id@ == m.id@ && (old(session)@.contains_key(m.id@) ==> status_is(
                rsp.status,
                StatusCode::Success,
                "Success"@,
            )) && (!old(session)@.contains_key(m.id@) ==> status_is(
                rsp.status,
                StatusCode::InvalidRequest,
                unknown_message(m.id@),
            ))),
        },
{
    match req {
        Request::HeartbeatMsg(m) => Reaction::Reply(Response::HeartbeatMsg(on_heartbeat_msg(m))),
        Request::EchoRequest(m) => Reaction::Reply(Response::EchoResponse(on_echo_request(m))),
        Request::RandomNumberRequest(m) => match on_random_number_request(session, m) {
            RandomNumberStart::Rejected(rsp) => Reaction::Reply(Response::RandomNumberResponse(rsp)),
            RandomNumberStart::Spawned(t) => Reaction::SpawnRandom(t),
        },
        Request::IncrementalSequenceRequest(m) => match on_incremental_sequence_request(session, m) {
            IncrementalSequenceStart::Rejected(rsp) => Reaction::Reply(
                Response::IncrementalSequenceResponse(rsp),
            ),
            IncrementalSequenceStart::Spawned(t) => Reaction::SpawnSequence(t),
        },
        Request::StopRandomNumberRequest(m) => Reaction::Reply(
            Response::StopRandomNumberResponse(on_stop_random_number_request(session, m)),
        ),
        Request::StopIncrementalSequenceRequest(m) => Reaction::Reply(
            Response::StopIncrementalSequenceResponse(
                on_stop_incremental_sequence_request(session, m),
            ),
        ),
    }
}

} // verus!
