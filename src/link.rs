//! The supervisor of the telemetry link.
//!
//! The supervisor decides; the caller acts. Each event that the caller
//! observes (a poll of the supervising loop, the outcome of a connection
//! attempt, a session failure reported by the tick loop, the exit of a tick
//! loop) goes to `step`, which returns the action to perform next.
//!
//! A tick loop is owned by one session at a time: when a session fails the
//! supervisor first asks for its tick loop to be stopped, and it starts no new
//! connection until that loop has exited. So at most one tick loop reads and
//! writes the shared cells at any time.
use vstd::prelude::*;
use crate::telemetry::{endpoint_url, endpoint_url_of};

verus! {

/// The state of the telemetry session.
#[derive(Clone, Copy, Debug, PartialEq, Eq, Structural)]
pub enum LinkState {
    Disconnected,
    Connecting,
    Connected,
}

/// What the caller observed.
#[derive(Debug)]
pub enum LinkEvent {
    /// The supervising loop's period came round; `host` is the address that
    /// the user has entered at this moment.
    Poll { host: String },
    /// The connection attempt produced a session.
    SessionEstablished,
    /// The connection attempt failed.
    ConnectFailed,
    /// The session failed while its tick loop ran.
    SessionFailed,
    /// The tick loop that was asked to stop has exited.
    TickLoopExited,
}

/// What the caller is to do next.
#[derive(Debug)]
pub enum LinkAction {
    /// Nothing until the next event.
    Idle,
    /// Try to establish a session with `endpoint`.
    Connect { endpoint: String },
    /// Start the read/write tick loop on the new session.
    StartTickLoop,
    /// Signal the running tick loop to stop.
    StopTickLoop,
    /// Wait for the stopped tick loop to exit, then report it.
    AwaitTickLoopExit,
    /// Sleep for the supervising loop's period before the next poll.
    WaitBeforeRetry,
}

/// How a failed read or write of a tick is handled.
#[derive(Clone, Copy, Debug, PartialEq, Eq, Structural)]
pub enum TickFault {
    /// The tick goes on with the values it had; the next tick tries again.
    Transient,
    /// The session is gone: the tick loop reports `SessionFailed` and stops.
    SessionLost,
}

/// The status codes (without their low information bits) that mean the
/// session or its connection is gone: communication error, server not
/// connected, secure channel id invalid, session id invalid, session closed,
/// secure channel closed, not connected and connection closed.
pub open spec fn ends_session(code: u32) -> bool {
    let c = code & 0xFFFF_0000u32;
    c == 0x8005_0000u32 || c == 0x800D_0000u32 || c == 0x8022_0000u32 || c == 0x8025_0000u32
        || c == 0x8026_0000u32 || c == 0x8086_0000u32 || c == 0x808A_0000u32 || c == 0x80AE_0000u32
}

/// Classifies the status code of a failed read or write.
pub fn classify_fault(code: u32) -> (r: TickFault)
    ensures
        r == (if ends_session(code) {
            TickFault::SessionLost
        } else {
            TickFault::Transient
        }),
{
    let c = code & 0xFFFF_0000u32;
    if c == 0x8005_0000u32 || c == 0x800D_0000u32 || c == 0x8022_0000u32 || c == 0x8025_0000u32
        || c == 0x8026_0000u32 || c == 0x8086_0000u32 || c == 0x808A_0000u32 || c == 0x80AE_0000u32 {
        TickFault::SessionLost
    } else {
        TickFault::Transient
    }
}

/// The supervisor's state as a mathematical value.
#[derive(Clone, Copy, Debug, PartialEq, Eq, Structural)]
pub struct LinkModel {
    pub state: LinkState,
    /// A tick loop runs for the current session.
    pub tick_loop_running: bool,
    /// A tick loop was told to stop and has not yet exited.
    pub tick_loop_stopping: bool,
}

/// The number of tick loops alive.
pub open spec fn tick_loops(m: LinkModel) -> int {
    (if m.tick_loop_running { 1int } else { 0int }) + (if m.tick_loop_stopping { 1int } else { 0int })
}

/// A tick loop runs exactly while connected, and none is being stopped while
/// another runs or while a connection is attempted.
pub open spec fn link_wf(m: LinkModel) -> bool {
    &&& (m.state == LinkState::Connected) == m.tick_loop_running
    &&& m.tick_loop_stopping ==> m.state == LinkState::Disconnected
}

/// The supervisor's state after `e`.
pub open spec fn next_model(m: LinkModel, e: LinkEvent) -> LinkModel {
    match e {
        LinkEvent::Poll { .. } => if m.state == LinkState::Disconnected && !m.tick_loop_stopping {
            LinkModel { state: LinkState::Connecting, ..m }
        } else {
            m
        },
        LinkEvent::SessionEstablished => if m.state == LinkState::Connecting {
            LinkModel { state: LinkState::Connected, tick_loop_running: true, ..m }
        } else {
            m
        },
        LinkEvent::ConnectFailed => if m.state == LinkState::Connecting {
            LinkModel { state: LinkState::Disconnected, ..m }
        } else {
            m
        },
        LinkEvent::SessionFailed => if m.state == LinkState::Connected {
            LinkModel { state: LinkState::Disconnected, tick_loop_running: false, tick_loop_stopping: true }
        } else {
            m
        },
        LinkEvent::TickLoopExited => LinkModel { tick_loop_stopping: false, ..m },
    }
}

/// The action that answers `e` in state `m`.
pub open spec fn action_answers(m: LinkModel, e: LinkEvent, a: LinkAction) -> bool {
    match e {
        LinkEvent::Poll { host } => if m.state != LinkState::Disconnected {
            a is Idle
        } else if m.tick_loop_stopping {
            a is AwaitTickLoopExit
        } else {
            a is Connect && a->endpoint@ == endpoint_url_of(host@)
        },
        LinkEvent::SessionEstablished => if m.state == LinkState::Connecting {
            a is StartTickLoop
        } else {
            a is Idle
        },
        LinkEvent::ConnectFailed => if m.state == LinkState::Connecting {
            a is WaitBeforeRetry
        } else {
            a is Idle
        },
        LinkEvent::SessionFailed => if m.state == LinkState::Connected {
            a is StopTickLoop
        } else {
            a is Idle
        },
        LinkEvent::TickLoopExited => a is Idle,
    }
}

/// Decides the reconnection of the telemetry link.
pub struct ReconnectSupervisor {
    state: LinkState,
    tick_loop_running: bool,
    tick_loop_stopping: bool,
}

impl View for ReconnectSupervisor {
    type V = LinkModel;

    closed spec fn view(&self) -> LinkModel {
        LinkModel {
            state: self.state,
            tick_loop_running: self.tick_loop_running,
            tick_loop_stopping: self.tick_loop_stopping,
        }
    }
}

impl ReconnectSupervisor {
    /// Disconnected, with no tick loop.
    pub fn new() -> (r: ReconnectSupervisor)
        ensures
            r@ == (LinkModel { state: LinkState::Disconnected, tick_loop_running: false, tick_loop_stopping: false }),
            link_wf(r@),
    {
        ReconnectSupervisor { state: LinkState::Disconnected, tick_loop_running: false, tick_loop_stopping: false }
    }

    pub fn state(&self) -> (r: LinkState)
        ensures
            r == self@.state,
    {
        self.state
    }

    /// The number of tick loops alive: the running one and one being stopped.
    pub fn tick_loops(&self) -> (r: u8)
        ensures
            r == tick_loops(self@),
    {
        (if self.tick_loop_running { 1u8 } else { 0u8 }) + (if self.tick_loop_stopping { 1u8 } else { 0u8 })
    }

    /// Takes in `event` and returns what to do next.
    pub fn step(&mut self, event: LinkEvent) -> (action: LinkAction)
        requires
            link_wf(old(self)@),
        ensures
            final(self)@ == next_model(old(self)@, event),
            action_answers(old(self)@, event, action),
            link_wf(final(self)@),
    {
        match event {
            LinkEvent::Poll { host } => {
                if self.state != LinkState::Disconnected {
                    LinkAction::Idle
                } else if self.tick_loop_stopping {
                    LinkAction::AwaitTickLoopExit
                } else {
                    self.state = LinkState::Connecting;
                    LinkAction::Connect { endpoint: endpoint_url(host.as_str()) }
                }
            },
            LinkEvent::SessionEstablished => {
                if self.state == LinkState::Connecting {
                    self.state = LinkState::Connected;
                    self.tick_loop_running = true;
                    LinkAction::StartTickLoop
                } else {
                    LinkAction::Idle
                }
            },
            LinkEvent::ConnectFailed => {
                if self.state == LinkState::Connecting {
                    self.state = LinkState::Disconnected;
                    LinkAction::WaitBeforeRetry
                } else {
                    LinkAction::Idle
                }
            },
            LinkEvent::SessionFailed => {
                if self.state == LinkState::Connected {
                    self.state = LinkState::Disconnected;
                    self.tick_loop_running = false;
                    self.tick_loop_stopping = true;
                    LinkAction::StopTickLoop
                } else {
                    LinkAction::Idle
                }
            },
            LinkEvent::TickLoopExited => {
                self.tick_loop_stopping = false;
                LinkAction::Idle
            },
        }
    }
}

/// The supervisor's state after the events `es`, in order.
pub open spec fn run_events(m: LinkModel, es: Seq<LinkEvent>) -> LinkModel
    decreases es.len(),
{
    if es.len() == 0 {
        m
    } else {
        next_model(run_events(m, es.drop_last()), es.last())
    }
}

/// Every step keeps the supervisor well formed; at most one tick loop is
/// alive at any time, exactly one while connected; and a tick loop is only
/// started when no other is alive.
pub proof fn lemma_single_tick_loop(m: LinkModel, e: LinkEvent, a: LinkAction)
    requires
        link_wf(m),
        action_answers(m, e, a),
    ensures
        link_wf(next_model(m, e)),
        tick_loops(next_model(m, e)) <= 1,
        next_model(m, e).state == LinkState::Connected ==> tick_loops(next_model(m, e)) == 1,
        a is StartTickLoop ==> tick_loops(m) == 0,
{
}

/// A session failure in `Connected` leads to `Disconnected`, and no further
/// event leads to a second such transition until a new session has been
/// established.
pub proof fn lemma_failure_disconnects_once(m: LinkModel, es: Seq<LinkEvent>)
    requires
        link_wf(m),
        m.state == LinkState::Connected,
        forall|i: int| 0 <= i < es.len() ==> !(#[trigger] es[i] is SessionEstablished),
    ensures
        next_model(m, LinkEvent::SessionFailed).state == LinkState::Disconnected,
        tick_loops(next_model(m, LinkEvent::SessionFailed)) == 1,
        next_model(m, LinkEvent::SessionFailed).tick_loop_stopping,
        run_events(next_model(m, LinkEvent::SessionFailed), es).state != LinkState::Connected,
        !run_events(next_model(m, LinkEvent::SessionFailed), es).tick_loop_running,
    decreases es.len(),
{
    if es.len() > 0 {
        let init = es.drop_last();
        assert forall|i: int| 0 <= i < init.len() implies !(#[trigger] init[i] is SessionEstablished) by {
            assert(init[i] == es[i]);
        }
        lemma_failure_disconnects_once(m, init);
        assert(!(es[es.len() - 1] is SessionEstablished));
    }
}

/// After a session failure, a new session that is established runs exactly
/// one tick loop: the supervisor will not connect again before the stopped
/// tick loop has exited.
pub proof fn lemma_reconnect_runs_one_tick_loop(m: LinkModel, es: Seq<LinkEvent>)
    requires
        link_wf(m),
        m.state == LinkState::Connected,
        es.len() > 0,
        es.last() is SessionEstablished,
        run_events(next_model(m, LinkEvent::SessionFailed), es).state == LinkState::Connected,
    ensures
        tick_loops(run_events(next_model(m, LinkEvent::SessionFailed), es)) == 1,
{
    lemma_run_keeps_wf(next_model(m, LinkEvent::SessionFailed), es);
}

proof fn lemma_run_keeps_wf(m: LinkModel, es: Seq<LinkEvent>)
    requires
        link_wf(m),
    ensures
        link_wf(run_events(m, es)),
    decreases es.len(),
{
    if es.len() > 0 {
        lemma_run_keeps_wf(m, es.drop_last());
    }
}

} // verus!
