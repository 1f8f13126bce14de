//! Background tasks: periodic emitters that a start request spawns. Each
//! tick, taken after the task's interval has elapsed, reads the task's flag
//! in the session, emits the next response or ends the task, and on ending
//! removes the task's entry: the only way an entry leaves the registry.

use vstd::prelude::*;
use rand::Rng;
use crate::message::{IncrementalSequenceResponse, RandomNumberResponse};
use crate::session::{after_start, after_stop, is_active, Session};

verus! {

/// Relies on rand::thread_rng and Rng::gen_range over an inclusive range:
/// the value lies in `[low, high]`; gen_range panics on an empty range,
/// which `requires` rules out.
#[verifier::external_body]
fn random_in(low: i32, high: i32) -> (r: i32)
    requires
        low <= high,
    ensures
        low <= r <= high,
{
    rand::thread_rng().gen_range(low..=high)
}

/// Emits random numbers drawn from `[min, max]` until cancelled.
pub struct RandomNumberTask {
    pub id: String,
    /// Seconds between two emissions.
    pub interval: u32,
    pub min: i32,
    pub max: i32,
}

/// Emits `start, start + 1, ..., end`, one per tick, unless cancelled first.
pub struct IncrementalSequenceTask {
    pub id: String,
    /// Seconds between two emissions.
    pub interval: u32,
    /// The number emitted next.
    pub next: i64,
    pub end: i32,
}

impl RandomNumberTask {
    /// Whether a tick with the given flag emits. A task whose range is empty
    /// has nothing to draw from and ends at its first tick.
    pub open spec fn emits(&self, active: bool) -> bool {
        active && self.min <= self.max
    }

    /// One tick given the task's flag: a response, or `None` when the task ends.
    pub fn step(&self, active: bool) -> (r: Option<RandomNumberResponse>)
        ensures
            r is Some <==> self.emits(active),
            r matches Some(rsp) ==> rsp.id@ == self.id@ && self.min <= rsp.number <= self.max
                && rsp.status is None,
    {
        if active && self.min <= self.max {
            let number = random_in(self.min, self.max);
            Some(RandomNumberResponse { id: self.id.clone(), number, status: None })
        } else {
            None
        }
    }

    /// Ends the task after a response could not be sent: it emits no more,
    /// and its entry is removed.
    pub fn end_after_send_failure(&self, session: &mut Session)
        requires
            old(session).wf(),
        ensures
            final(session).wf(),
            final(session)@ == old(session)@.remove(self.id@),
    {
        session.remove_task(&self.id);
    }

    /// One tick against the session: reads the task's flag, and on ending
    /// removes the task's entry.
    pub fn tick(&self, session: &mut Session) -> (r: Option<RandomNumberResponse>)
        requires
            old(session).wf(),
        ensures
            final(session).wf(),
            r is Some <==> self.emits(is_active(old(session)@, self.id@)),
            r matches Some(rsp) ==> rsp.id@ == self.id@ && self.min <= rsp.number <= self.max
                && rsp.status is None,
            r is Some ==> final(session)@ == old(session)@,
            r is None ==> final(session)@ == old(session)@.remove(self.id@),
    {
        let active = session.is_task_active(&self.id);
        let r = self.step(active);
        if r.is_none() {
            session.remove_task(&self.id);
        }
        r
    }
}

impl IncrementalSequenceTask {
    /// Ends the task after a response could not be sent: it emits no more,
    /// and its entry is removed.
    pub fn end_after_send_failure(&self, session: &mut Session)
        requires
            old(session).wf(),
        ensures
            final(session).wf(),
            final(session)@ == old(session)@.remove(self.id@),
    {
        session.remove_task(&self.id);
    }

    pub fn new(id: String, interval: u32, start: i32, end: i32) -> (r: IncrementalSequenceTask)
        ensures
            r.id == id,
            r.interval == interval,
            r.next == start as i64,
            r.end == end,
    {
        IncrementalSequenceTask { id, interval, next: start as i64, end }
    }

    /// Whether a tick with the given flag emits. `next` starts at an `i32`
    /// and only grows, so the lower bound holds of every task made by `new`.
    pub open spec fn emits(&self, active: bool) -> bool {
        active && i32::MIN as i64 <= self.next <= self.end as i64
    }

    /// One tick given the task's flag: the next number, or `None` when the
    /// task ends.
    pub fn step(&mut self, active: bool) -> (r: Option<IncrementalSequenceResponse>)
        ensures
            r is Some <==> old(self).emits(active),
            r matches Some(rsp) ==> rsp.id@ == old(self).id@ && rsp.number as i64 == old(self).next
                && rsp.status is None,
            old(self).emits(active) ==> final(self).next == old(self).next + 1 && final(self).id
                == old(self).id && final(self).interval == old(self).interval && final(self).end
                == old(self).end,
            !old(self).emits(active) ==> *final(self) == *old(self),
    {
        if active && i32::MIN as i64 <= self.next && self.next <= self.end as i64 {
            let number = self.next as i32;
            self.next = self.next + 1;
            Some(IncrementalSequenceResponse { id: self.id.clone(), number, status: None })
        } else {
            None
        }
    }

    /// One tick against the session: reads the task's flag, and on ending
    /// removes the task's entry.
    pub fn tick(&mut self, session: &mut Session) -> (r: Option<IncrementalSequenceResponse>)
        requires
            old(session).wf(),
        ensures
            final(session).wf(),
            r is Some <==> old(self).emits(is_active(old(session)@, old(self).id@)),
            r matches Some(rsp) ==> rsp.id@ == old(self).id@ && rsp.number as i64 == old(self).next
                && rsp.status is None,
            r is Some ==> final(self).next == old(self).next + 1 && final(self).id == old(self).id
                && final(self).interval == old(self).interval && final(self).end == old(self).end
                && final(session)@ == old(session)@,
            r is None ==> *final(self) == *old(self) && final(session)@ == old(session)@.remove(
                old(self).id@,
            ),
    {
        let active = session.is_task_active(&self.id);
        let r = self.step(active);
        if r.is_none() {
            session.remove_task(&self.id);
        }
        r
    }
}

/// Once a stop request has hit a registered task, the task's next tick emits
/// nothing and ends it, whichever kind it is; a start request for the same
/// id in between is rejected and leaves the flag down.
pub proof fn lemma_stop_ends_production(
    m: Map<Seq<char>, bool>,
    id: Seq<char>,
    seq_task: IncrementalSequenceTask,
    rnd_task: RandomNumberTask,
)
    requires
        m.contains_key(id),
        seq_task.id@ == id,
        rnd_task.id@ == id,
    ensures
        !is_active(after_stop(m, id), id),
        !seq_task.emits(is_active(after_stop(m, id), id)),
        !rnd_task.emits(is_active(after_stop(m, id), id)),
        after_stop(m, id).contains_key(id),
        after_start(after_stop(m, id), id) == after_stop(m, id),
{
}

} // verus!
