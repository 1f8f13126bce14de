//! The command table: which command ids have a handler, and under which name.

use vstd::prelude::*;
use crate::cmd_id::{
    ECHO_REQUEST, HEARTBEAT_MSG, INCREMENTAL_SEQUENCE_REQUEST, RANDOM_NUMBER_REQUEST,
    STOP_INCREMENTAL_SEQUENCE_REQUEST, STOP_RANDOM_NUMBER_REQUEST,
};

verus! {

/// A command that has a handler. Each one is bound to exactly one id.
#[derive(Clone, Copy, Debug, PartialEq, Eq, Structural)]
pub enum Command {
    HeartbeatMsg,
    RandomNumberRequest,
    StopRandomNumberRequest,
    IncrementalSequenceRequest,
    StopIncrementalSequenceRequest,
    EchoRequest,
}

impl Command {
    /// The id under which this command is registered.
    pub open spec fn spec_id(self) -> u16 {
        match self {
            Command::HeartbeatMsg => HEARTBEAT_MSG,
            Command::RandomNumberRequest => RANDOM_NUMBER_REQUEST,
            Command::StopRandomNumberRequest => STOP_RANDOM_NUMBER_REQUEST,
            Command::IncrementalSequenceRequest => INCREMENTAL_SEQUENCE_REQUEST,
            Command::StopIncrementalSequenceRequest => STOP_INCREMENTAL_SEQUENCE_REQUEST,
            Command::EchoRequest => ECHO_REQUEST,
        }
    }

    /// The command registered under `id`, if any.
    pub open spec fn spec_from_id(id: u16) -> Option<Command> {
        if id == HEARTBEAT_MSG {
            Some(Command::HeartbeatMsg)
        } else if id == RANDOM_NUMBER_REQUEST {
            Some(Command::RandomNumberRequest)
        } else if id == STOP_RANDOM_NUMBER_REQUEST {
            Some(Command::StopRandomNumberRequest)
        } else if id == INCREMENTAL_SEQUENCE_REQUEST {
            Some(Command::IncrementalSequenceRequest)
        } else if id == STOP_INCREMENTAL_SEQUENCE_REQUEST {
            Some(Command::StopIncrementalSequenceRequest)
        } else if id == ECHO_REQUEST {
            Some(Command::EchoRequest)
        } else {
            None
        }
    }

    pub fn id(&self) -> (r: u16)
        ensures
            r == self.spec_id(),
    {
        match self {
            Command::HeartbeatMsg => HEARTBEAT_MSG,
            Command::RandomNumberRequest => RANDOM_NUMBER_REQUEST,
            Command::StopRandomNumberRequest => STOP_RANDOM_NUMBER_REQUEST,
            Command::IncrementalSequenceRequest => INCREMENTAL_SEQUENCE_REQUEST,
            Command::StopIncrementalSequenceRequest => STOP_INCREMENTAL_SEQUENCE_REQUEST,
            Command::EchoRequest => ECHO_REQUEST,
        }
    }

    /// Looks up the command registered under `id`.
    pub fn from_id(id: u16) -> (r: Option<Command>)
        ensures
            r == Self::spec_from_id(id),
    {
        if id == HEARTBEAT_MSG {
            Some(Command::HeartbeatMsg)
        } else if id == RANDOM_NUMBER_REQUEST {
            Some(Command::RandomNumberRequest)
        } else if id == STOP_RANDOM_NUMBER_REQUEST {
            Some(Command::StopRandomNumberRequest)
        } else if id == INCREMENTAL_SEQUENCE_REQUEST {
            Some(Command::IncrementalSequenceRequest)
        } else if id == STOP_INCREMENTAL_SEQUENCE_REQUEST {
            Some(Command::StopIncrementalSequenceRequest)
        } else if id == ECHO_REQUEST {
            Some(Command::EchoRequest)
        } else {
            None
        }
    }

    pub open spec fn spec_name(self) -> Seq<char> {
        match self {
            Command::HeartbeatMsg => "on_heartbeat_msg"@,
            Command::RandomNumberRequest => "on_random_number_request"@,
            Command::StopRandomNumberRequest => "on_stop_random_number_request"@,
            Command::IncrementalSequenceRequest => "on_incremental_sequence_request"@,
            Command::StopIncrementalSequenceRequest => "on_stop_incremental_sequence_request"@,
            Command::EchoRequest => "on_echo_request"@,
        }
    }

    /// The name of the handler, under which its work is traced.
    pub fn name(&self) -> (r: &'static str)
        ensures
            r@ == self.spec_name(),
    {
        match self {
            Command::HeartbeatMsg => "on_heartbeat_msg",
            Command::RandomNumberRequest => "on_random_number_request",
            Command::StopRandomNumberRequest => "on_stop_random_number_request",
            Command::IncrementalSequenceRequest => "on_incremental_sequence_request",
            Command::StopIncrementalSequenceRequest => "on_stop_incremental_sequence_request",
            Command::EchoRequest => "on_echo_request",
        }
    }
}

/// The table binds each command to its own id, and no two commands share one.
pub proof fn lemma_table_one_to_one(c: Command, d: Command)
    ensures
        Command::spec_from_id(c.spec_id()) == Some(c),
        c.spec_id() == d.spec_id() ==> c == d,
{
}

} // verus!
