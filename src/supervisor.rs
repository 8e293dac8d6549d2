use vstd::prelude::*;
use crate::listener::{Frame, CloseInfo, Inbound, Listener, listener_after};
use crate::notifier::{NotifierEvent, NotifierPhase, notifier_next};

verus! {

/// The lifecycle of one client connection.
#[derive(Clone, Copy, Debug, PartialEq, Eq, Structural)]
pub enum Phase {
    /// Upgraded; the liveness probe is on its way.
    Handshaking,
    /// Notifier and listener both run.
    Active,
    /// One task has ended; the other has been told to abort.
    Draining,
    /// Terminal: the connection's resources are released.
    Closed,
}

/// The two tasks of a connection.
#[derive(Clone, Copy, Debug, PartialEq, Eq, Structural)]
pub enum TaskId {
    Notifier,
    Listener,
}

/// What the connection learns.
#[derive(Clone, Copy, Debug, PartialEq, Eq, Structural)]
pub enum ConnEvent {
    /// The initial ping went out.
    ProbeSent,
    /// The initial ping could not be sent.
    ProbeFailed,
    /// A task has ended, on its own or after an abort.
    TaskEnded(TaskId),
}

/// What the supervisor must do next.
#[derive(Clone, Copy, Debug, PartialEq, Eq, Structural)]
pub enum ConnAction {
    /// Start the notifier and the listener.
    SpawnTasks,
    /// Abort the given sibling and await its end.
    Abort(TaskId),
    /// Release the connection; it is closed.
    Release,
    /// Nothing to do.
    Nothing,
}

/// The supervisor's state for one connection.
#[derive(Clone, Copy, Debug, PartialEq, Eq, Structural)]
pub struct Connection {
    pub phase: Phase,
    pub tasks_spawned: bool,
    pub notifier_running: bool,
    pub listener_running: bool,
}

/// The task raced against `t`.
pub open spec fn sibling(t: TaskId) -> TaskId {
    match t {
        TaskId::Notifier => TaskId::Listener,
        TaskId::Listener => TaskId::Notifier,
    }
}

/// Whether task `t` still runs.
pub open spec fn is_running(c: Connection, t: TaskId) -> bool {
    match t {
        TaskId::Notifier => c.notifier_running,
        TaskId::Listener => c.listener_running,
    }
}

/// The closed connection.
pub open spec fn closed_from(c: Connection) -> Connection {
    Connection {
        phase: Phase::Closed,
        tasks_spawned: c.tasks_spawned,
        notifier_running: false,
        listener_running: false,
    }
}

/// One transition of the supervisor. A failed probe closes the connection
/// before any task starts; the first task to end has its sibling aborted; the
/// sibling's end closes the connection. Every other event changes nothing.
pub open spec fn conn_step(c: Connection, ev: ConnEvent) -> (Connection, ConnAction) {
    match (c.phase, ev) {
        (Phase::Handshaking, ConnEvent::ProbeSent) => (
            Connection {
                phase: Phase::Active,
                tasks_spawned: true,
                notifier_running: true,
                listener_running: true,
            },
            ConnAction::SpawnTasks,
        ),
        (Phase::Handshaking, ConnEvent::ProbeFailed) => (closed_from(c), ConnAction::Release),
        (Phase::Active, ConnEvent::TaskEnded(t)) => (
            Connection {
                phase: Phase::Draining,
                tasks_spawned: c.tasks_spawned,
                notifier_running: c.notifier_running && t != TaskId::Notifier,
                listener_running: c.listener_running && t != TaskId::Listener,
            },
            ConnAction::Abort(sibling(t)),
        ),
        (Phase::Draining, ConnEvent::TaskEnded(t)) => if is_running(c, t) {
            (closed_from(c), ConnAction::Release)
        } else {
            (c, ConnAction::Nothing)
        },
        _ => (c, ConnAction::Nothing),
    }
}

/// The state and the actions after a sequence of events.
pub open spec fn conn_run(c: Connection, evs: Seq<ConnEvent>) -> (Connection, Seq<ConnAction>)
    decreases evs.len(),
{
    if evs.len() == 0 {
        (c, Seq::empty())
    } else {
        let (c1, a) = conn_step(c, evs[0]);
        let (cn, rest) = conn_run(c1, evs.drop_first());
        (cn, seq![a] + rest)
    }
}

/// How many times a sequence of actions releases the connection.
pub open spec fn count_releases(acts: Seq<ConnAction>) -> nat
    decreases acts.len(),
{
    if acts.len() == 0 {
        0
    } else {
        (if acts[0] == ConnAction::Release { 1nat } else { 0nat }) + count_releases(
            acts.drop_first(),
        )
    }
}

impl Connection {
    /// The tasks that run are those the phase allows.
    pub open spec fn wf(&self) -> bool {
        match self.phase {
            Phase::Handshaking => !self.tasks_spawned && !self.notifier_running
                && !self.listener_running,
            Phase::Active => self.tasks_spawned && self.notifier_running && self.listener_running,
            Phase::Draining => self.tasks_spawned && self.notifier_running
                != self.listener_running,
            Phase::Closed => !self.notifier_running && !self.listener_running,
        }
    }

    /// A connection whose upgrade was just accepted.
    pub fn new() -> (r: Connection)
        ensures
            r.phase == Phase::Handshaking,
            r.wf(),
            !r.tasks_spawned,
    {
        Connection {
            phase: Phase::Handshaking,
            tasks_spawned: false,
            notifier_running: false,
            listener_running: false,
        }
    }

    /// Feeds one event and returns the action the supervisor must take.
    pub fn step(&mut self, ev: ConnEvent) -> (r: ConnAction)
        ensures
            (*final(self), r) == conn_step(*old(self), ev),
            old(self).wf() ==> final(self).wf(),
    {
        match (self.phase, ev) {
            (Phase::Handshaking, ConnEvent::ProbeSent) => {
                self.phase = Phase::Active;
                self.tasks_spawned = true;
                self.notifier_running = true;
                self.listener_running = true;
                ConnAction::SpawnTasks
            },
            (Phase::Handshaking, ConnEvent::ProbeFailed) => {
                self.close();
                ConnAction::Release
            },
            (Phase::Active, ConnEvent::TaskEnded(t)) => {
                self.phase = Phase::Draining;
                match t {
                    TaskId::Notifier => {
                        self.notifier_running = false;
                        ConnAction::Abort(TaskId::Listener)
                    },
                    TaskId::Listener => {
                        self.listener_running = false;
                        ConnAction::Abort(TaskId::Notifier)
                    },
                }
            },
            (Phase::Draining, ConnEvent::TaskEnded(t)) => {
                let running = match t {
                    TaskId::Notifier => self.notifier_running,
                    TaskId::Listener => self.listener_running,
                };
                if running {
                    self.close();
                    ConnAction::Release
                } else {
                    ConnAction::Nothing
                }
            },
            _ => ConnAction::Nothing,
        }
    }

    fn close(&mut self)
        ensures
            *final(self) == closed_from(*old(self)),
    {
        self.phase = Phase::Closed;
        self.notifier_running = false;
        self.listener_running = false;
    }

    /// Whether the connection has reached its terminal phase.
    pub fn is_closed(&self) -> (r: bool)
        ensures
            r == (self.phase == Phase::Closed),
    {
        self.phase == Phase::Closed
    }
}

/// A closed connection stays closed and releases nothing more, whatever
/// follows: closing is idempotent.
pub proof fn lemma_closed_is_final(c: Connection, evs: Seq<ConnEvent>)
    requires
        c.phase == Phase::Closed,
    ensures
        conn_run(c, evs).0 == c,
        conn_run(c, evs).1.len() == evs.len(),
        count_releases(conn_run(c, evs).1) == 0,
    decreases evs.len(),
{
    if evs.len() > 0 {
        lemma_closed_is_final(c, evs.drop_first());
        let acts = conn_run(c, evs).1;
        assert(acts.drop_first() == conn_run(c, evs.drop_first()).1);
    }
}

/// Once task `t` ends on an active connection, its sibling is aborted at once,
/// the sibling's end closes the connection, and the connection is released
/// exactly once whatever events follow.
pub proof fn lemma_first_end_closes_once(c: Connection, t: TaskId, rest: Seq<ConnEvent>)
    requires
        c.wf(),
        c.phase == Phase::Active,
    ensures
        ({
            let evs = seq![ConnEvent::TaskEnded(t), ConnEvent::TaskEnded(sibling(t))] + rest;
            let (cn, acts) = conn_run(c, evs);
            &&& acts[0] == ConnAction::Abort(sibling(t))
            &&& acts[1] == ConnAction::Release
            &&& acts.len() == evs.len()
            &&& cn.phase == Phase::Closed
            &&& !cn.notifier_running && !cn.listener_running
            &&& count_releases(acts) == 1
        }),
{
    let evs = seq![ConnEvent::TaskEnded(t), ConnEvent::TaskEnded(sibling(t))] + rest;
    let (c1, a1) = conn_step(c, ConnEvent::TaskEnded(t));
    let (c2, a2) = conn_step(c1, ConnEvent::TaskEnded(sibling(t)));
    assert(c2.phase == Phase::Closed);
    lemma_closed_is_final(c2, rest);
    assert(evs[0] == ConnEvent::TaskEnded(t));
    assert(evs.drop_first() =~= seq![ConnEvent::TaskEnded(sibling(t))] + rest);
    assert(evs.drop_first()[0] == ConnEvent::TaskEnded(sibling(t)));
    assert(evs.drop_first().drop_first() =~= rest);
    let acts = conn_run(c, evs).1;
    let acts1 = conn_run(c1, evs.drop_first()).1;
    let acts2 = conn_run(c2, rest).1;
    assert(acts1 == seq![a2] + acts2);
    assert(acts == seq![a1] + acts1);
    assert(acts.drop_first() =~= acts1);
    assert(acts1.drop_first() =~= acts2);
    assert(count_releases(acts1) == 1 + count_releases(acts2));
    assert(count_releases(acts) == count_releases(acts1));
}

/// A close frame, with or without a reason, stops a running listener; the
/// supervisor then aborts the notifier, and the notifier's end closes the
/// connection, released exactly once whatever follows.
pub proof fn lemma_close_frame_closes_connection(
    c: Connection,
    l: Listener,
    info: Option<CloseInfo>,
    rest: Seq<ConnEvent>,
)
    requires
        c.wf(),
        c.phase == Phase::Active,
        !l.stopped,
    ensures
        listener_after(l, Inbound::Frame(Frame::Close(info))).stopped,
        ({
            let evs = seq![
                ConnEvent::TaskEnded(TaskId::Listener),
                ConnEvent::TaskEnded(TaskId::Notifier),
            ] + rest;
            let (cn, acts) = conn_run(c, evs);
            &&& acts[0] == ConnAction::Abort(TaskId::Notifier)
            &&& acts[1] == ConnAction::Release
            &&& cn.phase == Phase::Closed
            &&& count_releases(acts) == 1
        }),
{
    lemma_first_end_closes_once(c, TaskId::Listener, rest);
}

/// A failed send ends the notifier; the supervisor then aborts the listener,
/// and the listener's end closes the connection, released exactly once
/// whatever follows.
pub proof fn lemma_send_failure_closes_connection(c: Connection, rest: Seq<ConnEvent>)
    requires
        c.wf(),
        c.phase == Phase::Active,
    ensures
        notifier_next(NotifierPhase::Sending, NotifierEvent::SendFailed)
            == NotifierPhase::Finished,
        ({
            let evs = seq![
                ConnEvent::TaskEnded(TaskId::Notifier),
                ConnEvent::TaskEnded(TaskId::Listener),
            ] + rest;
            let (cn, acts) = conn_run(c, evs);
            &&& acts[0] == ConnAction::Abort(TaskId::Listener)
            &&& acts[1] == ConnAction::Release
            &&& cn.phase == Phase::Closed
            &&& count_releases(acts) == 1
        }),
{
    lemma_first_end_closes_once(c, TaskId::Notifier, rest);
}

} // verus!
