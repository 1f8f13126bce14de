//! Request and response bodies, as the handlers read and build them. Their
//! byte encoding inside a frame's payload is done where the frames meet the
//! transport.

use vstd::prelude::*;

verus! {

/// Outcome of a request, reported to the client inside a response.
#[derive(Clone, Copy, Debug, PartialEq, Eq, Structural)]
pub enum StatusCode {
    Success,
    InvalidRequest,
}

impl StatusCode {
    pub open spec fn spec_code(self) -> i32 {
        match self {
            StatusCode::Success => 0,
            StatusCode::InvalidRequest => 1,
        }
    }

    /// The number that stands for this status on the wire.
    pub fn code(&self) -> (r: i32)
        ensures
            r == self.spec_code(),
    {
        match self {
            StatusCode::Success => 0,
            StatusCode::InvalidRequest => 1,
        }
    }
}

#[derive(Debug, PartialEq, Eq)]
pub struct Status {
    pub code: i32,
    pub message: String,
}

#[derive(Debug, PartialEq, Eq)]
pub struct HeartbeatMsg {
    pub id: String,
    pub timestamp: i64,
}

#[derive(Debug, PartialEq, Eq)]
pub struct RandomNumberRequest {
    pub id: String,
    pub interval: u32,
    pub min: i32,
    pub max: i32,
}

#[derive(Debug, PartialEq, Eq)]
pub struct RandomNumberResponse {
    pub id: String,
    pub number: i32,
    pub status: Option<Status>,
}

#[derive(Debug, PartialEq, Eq)]
pub struct StopRandomNumberRequest {
    pub id: String,
}

#[derive(Debug, PartialEq, Eq)]
pub struct StopRandomNumberResponse {
    pub id: String,
    pub status: Option<Status>,
}

#[derive(Debug, PartialEq, Eq)]
pub struct IncrementalSequenceRequest {
    pub id: String,
    pub interval: u32,
    pub start: i32,
    pub end: i32,
}

#[derive(Debug, PartialEq, Eq)]
pub struct IncrementalSequenceResponse {
    pub id: String,
    pub number: i32,
    pub status: Option<Status>,
}

#[derive(Debug, PartialEq, Eq)]
pub struct StopIncrementalSequenceRequest {
    pub id: String,
}

#[derive(Debug, PartialEq, Eq)]
pub struct StopIncrementalSequenceResponse {
    pub id: String,
    pub status: Option<Status>,
}

#[derive(Debug, PartialEq, Eq)]
pub struct EchoRequest {
    pub message: String,
}

#[derive(Debug, PartialEq, Eq)]
pub struct EchoResponse {
    pub message: String,
}

} // verus!
