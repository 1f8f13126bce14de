//! The per-connection session: its task registry, and the receive loop's
//! decision on each inbound message.

use vstd::prelude::*;
use crate::command::Command;
use crate::packet::{spec_decode, FrameError, Packet};

verus! {

/// One client-started task: its id and whether it may still produce output.
pub struct TaskEntry {
    pub id: String,
    pub active: bool,
}

/// The state of one connection: the registry of its live tasks, each id at
/// most once, mapped to its cancellation flag.
pub struct Session {
    tasks: Vec<TaskEntry>,
    registry: Ghost<Map<Seq<char>, bool>>,
}

/// Whether the task `id` is registered and not cancelled.
pub open spec fn is_active(m: Map<Seq<char>, bool>, id: Seq<char>) -> bool {
    m.contains_key(id) && m[id]
}

/// The registry after a start request for `id`: a new id is registered as
/// active, a known one is left as it was.
pub open spec fn after_start(m: Map<Seq<char>, bool>, id: Seq<char>) -> Map<Seq<char>, bool> {
    if m.contains_key(id) {
        m
    } else {
        m.insert(id, true)
    }
}

/// The registry after a stop request for `id`: a known id is flagged
/// inactive but stays registered; an unknown one changes nothing.
pub open spec fn after_stop(m: Map<Seq<char>, bool>, id: Seq<char>) -> Map<Seq<char>, bool> {
    if m.contains_key(id) {
        m.insert(id, false)
    } else {
        m
    }
}

/// What the receive loop got from the transport.
pub enum Inbound {
    Text(String),
    Binary(Vec<u8>),
    Ping,
    Pong,
    /// Any other kind of message.
    Other,
    /// The peer closed the connection, or reading from it failed.
    Closed,
}

/// What the receive loop does with one inbound message.
pub enum LoopAction {
    /// Send the text back unchanged.
    EchoText(String),
    /// Hand the payload to the handler of the command.
    Dispatch(Command, Vec<u8>),
    /// Nothing to do; wait for the next message.
    Continue,
    /// A frame could not be read: the connection ends.
    Malformed(FrameError),
    /// The transport is gone: the connection ends.
    Close,
}

/// Where one binary message is routed.
pub enum Route {
    Dispatch(Command, Vec<u8>),
    /// A well-formed frame under an id with no handler: ignored.
    Ignore,
    Reject(FrameError),
}

pub ghost enum RouteView {
    Dispatch(Command, Seq<u8>),
    Ignore,
    Reject(FrameError),
}

impl View for Route {
    type V = RouteView;

    open spec fn view(&self) -> RouteView {
        match self {
            Route::Dispatch(c, p) => RouteView::Dispatch(*c, p@),
            Route::Ignore => RouteView::Ignore,
            Route::Reject(e) => RouteView::Reject(*e),
        }
    }
}

/// Where the binary message `b` goes: a malformed frame is rejected before
/// its payload is looked at, a frame whose command has no handler is
/// ignored, any other goes to its handler with its payload.
pub open spec fn spec_route(b: Seq<u8>) -> RouteView {
    match spec_decode(b) {
        Err(e) => RouteView::Reject(e),
        Ok((cmd_id, payload)) => match Command::spec_from_id(cmd_id) {
            Some(c) => RouteView::Dispatch(c, payload),
            None => RouteView::Ignore,
        },
    }
}

/// Decodes the binary message `bytes` and looks its command up.
pub fn route(bytes: &[u8]) -> (r: Route)
    ensures
        r@ == spec_route(bytes@),
{
    match Packet::decode(bytes) {
        Err(e) => Route::Reject(e),
        Ok(p) => match Command::from_id(p.cmd_id) {
            Some(c) => Route::Dispatch(c, p.msg),
            None => Route::Ignore,
        },
    }
}

/// A well-formed frame whose command id has no handler neither ends the
/// connection nor reaches a handler: it is ignored, and nothing is sent.
pub proof fn lemma_unknown_command_ignored(b: Seq<u8>)
    requires
        spec_decode(b) is Ok,
        Command::spec_from_id(spec_decode(b)->Ok_0.0) is None,
    ensures
        spec_route(b) == RouteView::Ignore,
{
}

/// A buffer that fails to decode never reaches a handler.
pub proof fn lemma_malformed_never_dispatched(b: Seq<u8>)
    requires
        spec_decode(b) is Err,
    ensures
        spec_route(b) == RouteView::Reject(spec_decode(b)->Err_0),
{
}

impl View for Session {
    type V = Map<Seq<char>, bool>;

    closed spec fn view(&self) -> Map<Seq<char>, bool> {
        self.registry@
    }
}

impl Session {
    /// Each id is registered at most once, and the registry is what the
    /// entries hold.
    pub closed spec fn wf(&self) -> bool {
        &&& forall|i: int, j: int|
            0 <= i < self.tasks@.len() && 0 <= j < self.tasks@.len() && i != j
                ==> #[trigger] self.tasks@[i].id@ != #[trigger] self.tasks@[j].id@
        &&& forall|i: int|
            0 <= i < self.tasks@.len() ==> self.registry@.contains_key(#[trigger] self.tasks@[i].id@)
                && self.registry@[self.tasks@[i].id@] == self.tasks@[i].active
        &&& forall|k: Seq<char>|
            #[trigger] self.registry@.contains_key(k) ==> exists|i: int|
                0 <= i < self.tasks@.len() && #[trigger] self.tasks@[i].id@ == k
    }

    /// A session with no tasks.
    pub fn new() -> (r: Session)
        ensures
            r.wf(),
            r@ == Map::<Seq<char>, bool>::empty(),
    {
        Session { tasks: Vec::new(), registry: Ghost(Map::empty()) }
    }

    fn find(&self, id: &String) -> (r: Option<usize>)
        requires
            self.wf(),
        ensures
            match r {
                Some(i) => i < self.tasks@.len() && self.tasks@[i as int].id@ == id@,
                None => !self@.contains_key(id@),
            },
    {
        let mut i: usize = 0;
        while i < self.tasks.len()
            invariant
                i <= self.tasks@.len(),
                forall|j: int| 0 <= j < i ==> #[trigger] self.tasks@[j].id@ != id@,
            decreases self.tasks@.len() - i,
        {
            if self.tasks[i].id == *id {
                return Some(i);
            }
            i = i + 1;
        }
        None
    }

    /// Whether a task with this id is registered.
    pub fn include_task(&self, id: &String) -> (r: bool)
        requires
            self.wf(),
        ensures
            r == self@.contains_key(id@),
    {
        match self.find(id) {
            Some(_) => true,
            None => false,
        }
    }

    /// Whether a task with this id is registered and not cancelled.
    pub fn is_task_active(&self, id: &String) -> (r: bool)
        requires
            self.wf(),
        ensures
            r == is_active(self@, id@),
    {
        match self.find(id) {
            Some(i) => self.tasks[i].active,
            None => false,
        }
    }

    /// Registers a new task as active. The id must not be registered yet.
    pub fn add_task(&mut self, id: &String)
        requires
            old(self).wf(),
            !old(self)@.contains_key(id@),
        ensures
            final(self).wf(),
            final(self)@ == old(self)@.insert(id@, true),
    {
        let ghost old_tasks = self.tasks@;
        self.tasks.push(TaskEntry { id: id.clone(), active: true });
        self.registry = Ghost(self.registry@.insert(id@, true));
        proof {
            let n = old_tasks.len() as int;
            assert forall|k: Seq<char>| #[trigger] self.registry@.contains_key(k) implies exists|
                i: int,
            | 0 <= i < self.tasks@.len() && #[trigger] self.tasks@[i].id@ == k by {
                if k == id@ {
                    assert(self.tasks@[n].id@ == k);
                } else {
                    let i = choose|i: int| 0 <= i < old_tasks.len() && #[trigger] old_tasks[i].id@ == k;
                    assert(self.tasks@[i].id@ == k);
                }
            }
        }
    }

    /// Registers `id` as an active task unless it is registered already, as
    /// one step. Returns whether it was registered now.
    pub fn start_task(&mut self, id: &String) -> (r: bool)
        requires
            old(self).wf(),
        ensures
            final(self).wf(),
            r == !old(self)@.contains_key(id@),
            final(self)@ == after_start(old(self)@, id@),
    {
        if self.include_task(id) {
            false
        } else {
            self.add_task(id);
            true
        }
    }

    /// Sets the flag of a registered task.
    pub fn store_task(&mut self, id: &String, value: bool)
        requires
            old(self).wf(),
            old(self)@.contains_key(id@),
        ensures
            final(self).wf(),
            final(self)@ == old(self)@.insert(id@, value),
    {
        let i = self.find(id).unwrap();
        let ghost old_tasks = self.tasks@;
        let name = self.tasks[i].id.clone();
        self.tasks.set(i, TaskEntry { id: name, active: value });
        self.registry = Ghost(self.registry@.insert(id@, value));
        proof {
            assert forall|k: Seq<char>| #[trigger] self.registry@.contains_key(k) implies exists|
                j: int,
            | 0 <= j < self.tasks@.len() && #[trigger] self.tasks@[j].id@ == k by {
                let j = choose|j: int| 0 <= j < old_tasks.len() && #[trigger] old_tasks[j].id@ == k;
                assert(self.tasks@[j].id@ == k);
            }
        }
    }

    /// Cancels the task `id` if it is registered; the entry stays until the
    /// task itself removes it. Returns whether the id was registered.
    pub fn cancel_task(&mut self, id: &String) -> (r: bool)
        requires
            old(self).wf(),
        ensures
            final(self).wf(),
            r == old(self)@.contains_key(id@),
            final(self)@ == after_stop(old(self)@, id@),
    {
        if self.include_task(id) {
            self.store_task(id, false);
            true
        } else {
            false
        }
    }

    /// Removes the entry of a task that has stopped producing output.
    pub fn remove_task(&mut self, id: &String)
        requires
            old(self).wf(),
        ensures
            final(self).wf(),
            final(self)@ == old(self)@.remove(id@),
    {
        match self.find(id) {
            None => {
                assert(self.registry@.remove(id@) =~= self.registry@);
            },
            Some(i) => {
                let ghost old_tasks = self.tasks@;
                self.tasks.remove(i);
                self.registry = Ghost(self.registry@.remove(id@));
                proof {
                    assert forall|a: int| 0 <= a < self.tasks@.len() implies #[trigger] self.tasks@[a]
                        == old_tasks[if a < i { a } else { a + 1 }] by {}
                    assert forall|k: Seq<char>| #[trigger] self.registry@.contains_key(k) implies exists|
                        j: int,
                    | 0 <= j < self.tasks@.len() && #[trigger] self.tasks@[j].id@ == k by {
                        let j = choose|j: int| 0 <= j < old_tasks.len() && #[trigger] old_tasks[j].id@ == k;
                        assert(j != i);
                        if j < i {
                            assert(self.tasks@[j].id@ == k);
                        } else {
                            assert(self.tasks@[j - 1].id@ == k);
                        }
                    }
                }
            },
        }
    }

    /// The receive loop's decision on one inbound message.
    pub fn on_inbound(msg: Inbound) -> (r: LoopAction)
        ensures
            match msg {
                Inbound::Text(t) => r matches LoopAction::EchoText(s) && s@ == t@,
                Inbound::Binary(b) => match spec_route(b@) {
                    RouteView::Dispatch(c, p) => r matches LoopAction::Dispatch(d, q) && d == c
                        && q@ == p,
                    RouteView::Ignore => r is Continue,
                    RouteView::Reject(e) => r == LoopAction::Malformed(e),
                },
                Inbound::Closed => r is Close,
                _ => r is Continue,
            },
    {
        match msg {
            Inbound::Text(t) => LoopAction::EchoText(t),
            Inbound::Binary(b) => match route(b.as_slice()) {
                Route::Dispatch(c, p) => LoopAction::Dispatch(c, p),
                Route::Ignore => LoopAction::Continue,
                Route::Reject(e) => LoopAction::Malformed(e),
            },
            Inbound::Closed => LoopAction::Close,
            _ => LoopAction::Continue,
        }
    }
}

/// A second start request for an id right after a first leaves exactly one
/// entry for it, is answered as a duplicate, and does not overwrite it.
pub proof fn lemma_start_at_most_once(m: Map<Seq<char>, bool>, id: Seq<char>)
    ensures
        after_start(m, id).contains_key(id),
        after_start(m, id).dom() == m.dom().insert(id),
        after_start(after_start(m, id), id).contains_key(id),
        after_start(after_start(m, id), id) == after_start(m, id),
        after_start(m, id)[id] == (if m.contains_key(id) { m[id] } else { true }),
{
    assert(after_start(m, id).dom() =~= m.dom().insert(id));
}

} // verus!
