//! The gateway protocol engine: the handshake sequencer, the heartbeat
//! scheduler, and the steady-state step function that the event loop drives.
//! The engine decides; the caller owns the transport, performs each returned
//! action, and hands the next event back in.

use crate::codec::{
    decode_fields, heartbeat_frame, hello_interval, identify_frame, parse_frame, raw_frame_of,
    spec_decode, spec_heartbeat_frame, spec_hello_interval, spec_identify_frame, EnvelopeView,
    GatewayEnvelope, GatewayError, RawFrameView, OP_DISPATCH, OP_GUILD_SYNC, OP_HEARTBEAT,
    OP_HEARTBEAT_ACK,
};
use crate::text::{spec_dec_str, u64_to_string};
use vstd::prelude::*;
use vstd::string::StringExecFns;

verus! {

/// Close code for a cooperative shutdown.
pub const CLOSE_NORMAL: u16 = 1000;

/// Close code for a protocol violation, including zombie detection.
pub const CLOSE_PROTOCOL_ERROR: u16 = 1002;

/// The life of one connection. Transitions are strictly linear except
/// `Steady -> Closing`, which ack-timeout detection, a remote close, a
/// malformed frame, or the shutdown signal can all cause.
#[derive(Debug, Clone, Copy, PartialEq, Eq, Structural)]
pub enum ConnectionState {
    Connecting,
    AwaitingHello,
    Identifying,
    Steady,
    Closing,
    Closed,
}

/// The heartbeat scheduler's timing state: the interval the hello announced,
/// the instant (in milliseconds) the next fire is due, and whether the last
/// heartbeat sent is still waiting for its acknowledgment.
#[derive(Debug, Clone, Copy, PartialEq, Eq, Structural)]
pub struct HeartbeatState {
    pub interval: u64,
    pub next_fire: u64,
    pub ack_pending: bool,
}

/// Why the event loop ended. Shutdown is a normal terminal outcome, not an
/// error; every exit is distinguishable for the caller.
#[derive(Debug, Clone, Copy, PartialEq, Eq, Structural)]
pub enum LoopExit {
    ShutdownRequested,
    Zombied,
    ProtocolViolation,
    TransportFailure,
}

/// One event the loop can wake up on: a decoded inbound envelope, an inbound
/// frame that failed to decode, the heartbeat timer firing, the shutdown
/// signal, or the peer having closed the transport.
#[derive(Debug)]
pub enum Event {
    Envelope(GatewayEnvelope),
    Malformed,
    TimerFired,
    Shutdown,
    PeerClosed,
}

/// The mathematical value of an `Event`.
pub enum EventView {
    Envelope(EnvelopeView),
    Malformed,
    TimerFired,
    Shutdown,
    PeerClosed,
}

impl View for Event {
    type V = EventView;

    open spec fn view(&self) -> EventView {
        match self {
            Event::Envelope(env) => EventView::Envelope(env@),
            Event::Malformed => EventView::Malformed,
            Event::TimerFired => EventView::TimerFired,
            Event::Shutdown => EventView::Shutdown,
            Event::PeerClosed => EventView::PeerClosed,
        }
    }
}

/// What the caller must do after a step: nothing, write a frame to the
/// transport, hand a dispatch-class envelope to the event-handling
/// collaborator, or send a close frame with the given code and reason.
#[derive(Debug)]
pub enum Action {
    Nothing,
    Send(String),
    Dispatch(GatewayEnvelope),
    Close(u16, String),
}

/// The mathematical value of an `Action`.
pub enum ActionView {
    Nothing,
    Send(Seq<char>),
    Dispatch(EnvelopeView),
    Close(u16, Seq<char>),
}

impl View for Action {
    type V = ActionView;

    open spec fn view(&self) -> ActionView {
        match self {
            Action::Nothing => ActionView::Nothing,
            Action::Send(frame) => ActionView::Send(frame@),
            Action::Dispatch(env) => ActionView::Dispatch(env@),
            Action::Close(code, reason) => ActionView::Close(*code, reason@),
        }
    }
}

/// The outcome of one step: the action to perform, whether the loop is
/// over (and why), and a line to record at warning severity, if the step
/// produced one.
#[derive(Debug)]
pub struct Step {
    pub action: Action,
    pub exit: Option<LoopExit>,
    pub log: Option<String>,
}

/// The mathematical value of a `Step`.
pub struct StepView {
    pub action: ActionView,
    pub exit: Option<LoopExit>,
    pub log: Option<Seq<char>>,
}

impl View for Step {
    type V = StepView;

    open spec fn view(&self) -> StepView {
        StepView {
            action: self.action@,
            exit: self.exit,
            log: match self.log {
                Some(line) => Some(line@),
                None => None,
            },
        }
    }
}

/// The protocol engine for one connection: the connection state, the
/// heartbeat scheduler's state once the hello has announced an interval, the
/// last observed sequence number, and the borrowed credential.
#[derive(Debug)]
pub struct Engine {
    pub state: ConnectionState,
    pub heartbeat: Option<HeartbeatState>,
    pub last_seq: Option<u64>,
    pub token: String,
}

/// The mathematical value of an `Engine`.
#[verifier::ext_equal]
pub struct EngineView {
    pub state: ConnectionState,
    pub heartbeat: Option<HeartbeatState>,
    pub last_seq: Option<u64>,
    pub token: Seq<char>,
}

impl View for Engine {
    type V = EngineView;

    open spec fn view(&self) -> EngineView {
        EngineView {
            state: self.state,
            heartbeat: self.heartbeat,
            last_seq: self.last_seq,
            token: self.token@,
        }
    }
}

impl EngineView {
    /// The engine's invariant: heartbeat state exists exactly while the hello
    /// has been processed and the connection has not begun closing.
    pub open spec fn wf(self) -> bool {
        self.heartbeat is Some <==> (self.state == ConnectionState::Identifying || self.state
            == ConnectionState::Steady)
    }
}

/// The first fire instant for a drawn jitter: `now + jitter`, saturating at
/// the clock's end.
pub open spec fn spec_first_fire(now: u64, jitter: u64) -> u64 {
    now.saturating_add(jitter)
}

/// For every positive interval and every jitter the scheduler can draw, the
/// first heartbeat fire lies strictly within one interval of entering steady
/// state.
pub proof fn lemma_first_fire_window(now: u64, interval: u64, jitter: u64)
    requires
        interval > 0,
        jitter < interval,
        now + interval <= u64::MAX,
    ensures
        now <= spec_first_fire(now, jitter),
        spec_first_fire(now, jitter) < now + interval,
{
}

/// Whether an opcode belongs to the known set.
pub open spec fn is_known_opcode(op: u64) -> bool {
    op <= OP_GUILD_SYNC
}

/// The warning recorded for an envelope whose opcode lies outside the known
/// set.
pub open spec fn spec_unknown_opcode_line(op: u64) -> Seq<char> {
    "Unknown opcode: "@ + spec_dec_str(op as int) + ". Ignoring..."@
}

/// What one steady-state step does for an inbound envelope: record the
/// sequence number when one is present; an acknowledgment clears the pending
/// flag; a peer heartbeat is answered immediately, independent of the timer;
/// a dispatch-class envelope is handed out; every other known opcode is
/// ignored; an opcode outside the known set is logged and ignored, never
/// fatal.
pub open spec fn spec_step_envelope(pre: EngineView, env: EnvelopeView) -> (EngineView, StepView) {
    let seq = if env.sequence is Some {
        env.sequence
    } else {
        pre.last_seq
    };
    let base = EngineView { last_seq: seq, ..pre };
    if env.opcode == OP_HEARTBEAT_ACK {
        (
            EngineView {
                heartbeat: match base.heartbeat {
                    Some(hb) => Some(HeartbeatState { ack_pending: false, ..hb }),
                    None => None,
                },
                ..base
            },
            StepView { action: ActionView::Nothing, exit: None, log: None },
        )
    } else if env.opcode == OP_HEARTBEAT {
        (
            base,
            StepView { action: ActionView::Send(spec_heartbeat_frame(seq)), exit: None, log: None },
        )
    } else if env.opcode == OP_DISPATCH {
        (base, StepView { action: ActionView::Dispatch(env), exit: None, log: None })
    } else if is_known_opcode(env.opcode) {
        (base, StepView { action: ActionView::Nothing, exit: None, log: None })
    } else {
        (
            base,
            StepView {
                action: ActionView::Nothing,
                exit: None,
                log: Some(spec_unknown_opcode_line(env.opcode)),
            },
        )
    }
}

/// What a timer fire does: with the acknowledgment still pending the
/// connection is a zombie and closes with the protocol-violation code;
/// otherwise a heartbeat carrying the last observed sequence number goes
/// out, the pending flag is set, and the next fire is scheduled one interval
/// later.
pub open spec fn spec_step_timer(pre: EngineView) -> (EngineView, StepView) {
    match pre.heartbeat {
        Some(hb) => if hb.ack_pending {
            (
                EngineView { state: ConnectionState::Closing, heartbeat: None, ..pre },
                StepView {
                    action: ActionView::Close(CLOSE_PROTOCOL_ERROR, "Connection zombied"@),
                    exit: Some(LoopExit::Zombied),
                    log: None,
                },
            )
        } else {
            (
                EngineView {
                    heartbeat: Some(
                        HeartbeatState {
                            interval: hb.interval,
                            next_fire: hb.next_fire.saturating_add(hb.interval),
                            ack_pending: true,
                        },
                    ),
                    ..pre
                },
                StepView {
                    action: ActionView::Send(spec_heartbeat_frame(pre.last_seq)),
                    exit: None,
                    log: None,
                },
            )
        },
        None => (pre, StepView { action: ActionView::Nothing, exit: None, log: None }),
    }
}

/// One steady-state step of the event loop: exactly one event is handled
/// fully. A malformed frame and a remote close are fatal; the shutdown
/// signal ends the loop with a normal-code close on the very step that
/// observes it.
pub open spec fn spec_step(pre: EngineView, ev: EventView) -> (EngineView, StepView) {
    match ev {
        EventView::Envelope(env) => spec_step_envelope(pre, env),
        EventView::Malformed => (
            EngineView { state: ConnectionState::Closing, heartbeat: None, ..pre },
            StepView {
                action: ActionView::Close(CLOSE_PROTOCOL_ERROR, Seq::empty()),
                exit: Some(LoopExit::ProtocolViolation),
                log: None,
            },
        ),
        EventView::TimerFired => spec_step_timer(pre),
        EventView::Shutdown => (
            EngineView { state: ConnectionState::Closing, heartbeat: None, ..pre },
            StepView {
                action: ActionView::Close(CLOSE_NORMAL, Seq::empty()),
                exit: Some(LoopExit::ShutdownRequested),
                log: None,
            },
        ),
        EventView::PeerClosed => (
            EngineView { state: ConnectionState::Closing, heartbeat: None, ..pre },
            StepView {
                action: ActionView::Nothing,
                exit: Some(LoopExit::TransportFailure),
                log: None,
            },
        ),
    }
}

/// What the hello step yields for given raw fields: the announced interval,
/// `MalformedFrame` when the first frame does not decode, and
/// `ProtocolViolation` when it is not a hello or carries no usable
/// `heartbeat_interval`.
pub open spec fn spec_hello_outcome(f: Option<RawFrameView>) -> Result<u64, GatewayError> {
    match spec_decode(f) {
        Err(e) => Err(e),
        Ok(env) => spec_hello_interval(env),
    }
}

/// Relies on `fastrand::u64` over the range `0..n`: the result lies in that
/// range, and the call panics only on an empty range, which `n > 0` rules
/// out. Nothing more is promised of a random draw.
#[verifier::external_body]
fn random_below(n: u64) -> (r: u64)
    requires
        n > 0,
    ensures
        r < n,
{
    fastrand::u64(0..n)
}

impl Engine {
    /// A fresh engine for one connection attempt, borrowing the credential.
    pub fn new(token: &str) -> (r: Engine)
        ensures
            r@.state == ConnectionState::Connecting,
            r@.heartbeat is None,
            r@.last_seq is None,
            r@.token == token@,
            r@.wf(),
    {
        Engine { state: ConnectionState::Connecting, heartbeat: None, last_seq: None, token: token.to_owned() }
    }

    /// The transport is open: the engine now awaits the hello.
    pub fn on_open(&mut self)
        requires
            old(self)@.state == ConnectionState::Connecting,
            old(self)@.wf(),
        ensures
            final(self)@ == (EngineView { state: ConnectionState::AwaitingHello, ..old(self)@ }),
            final(self)@.wf(),
    {
        self.state = ConnectionState::AwaitingHello;
        proof {
            assert(final(self)@ =~= (EngineView {
                state: ConnectionState::AwaitingHello,
                ..old(self)@
            }));
        }
    }

    /// Handles the first inbound frame, which must be a hello. On success
    /// the heartbeat scheduler starts with the announced interval and a
    /// jittered first fire strictly within one interval of `now`, and the
    /// identify frame to send comes back. On failure the connection is
    /// closing and the error says exactly why: `MalformedFrame` when the
    /// frame does not decode, `ProtocolViolation` when it is not a hello or
    /// carries no usable `heartbeat_interval`.
    pub fn on_hello_text(&mut self, raw: &str, now: u64) -> (r: Result<String, GatewayError>)
        requires
            old(self)@.state == ConnectionState::AwaitingHello,
            old(self)@.wf(),
        ensures
            final(self)@.wf(),
            final(self)@.token == old(self)@.token,
            final(self)@.last_seq == old(self)@.last_seq,
            ({
                let h = spec_hello_outcome(raw_frame_of(raw@));
                match r {
                    Ok(frame) => {
                        &&& h is Ok
                        &&& frame@ == spec_identify_frame(old(self)@.token)
                        &&& final(self)@.state == ConnectionState::Identifying
                        &&& final(self)@.heartbeat matches Some(hb)
                        &&& hb.interval == h->Ok_0
                        &&& !hb.ack_pending
                        &&& now <= hb.next_fire
                        &&& hb.interval > 0 && now + hb.interval <= u64::MAX ==> hb.next_fire
                            < now + hb.interval
                        &&& hb.interval == 0 ==> hb.next_fire == now
                    },
                    Err(e) => {
                        &&& h == Err::<u64, GatewayError>(e)
                        &&& final(self)@.state == ConnectionState::Closing
                        &&& final(self)@.heartbeat is None
                    },
                }
            }),
    {
        let env = match decode_fields(parse_frame(raw)) {
            Ok(env) => env,
            Err(e) => {
                self.state = ConnectionState::Closing;
                return Err(e);
            },
        };
        let interval = match hello_interval(&env) {
            Ok(interval) => interval,
            Err(e) => {
                self.state = ConnectionState::Closing;
                return Err(e);
            },
        };
        let jitter = if interval > 0 {
            random_below(interval)
        } else {
            0
        };
        let next_fire = now.saturating_add(jitter);
        self.heartbeat = Some(HeartbeatState { interval, next_fire, ack_pending: false });
        self.state = ConnectionState::Identifying;
        Ok(identify_frame(self.token.as_str()))
    }

    /// The first inbound frame was not a structured-text message at all:
    /// the handshake fails, surfaced as a malformed frame, never swallowed.
    pub fn on_hello_non_text(&mut self) -> (r: GatewayError)
        requires
            old(self)@.state == ConnectionState::AwaitingHello,
            old(self)@.wf(),
        ensures
            final(self)@ == (EngineView { state: ConnectionState::Closing, ..old(self)@ }),
            final(self)@.wf(),
            r == GatewayError::MalformedFrame,
    {
        self.state = ConnectionState::Closing;
        proof {
            assert(final(self)@ =~= (EngineView { state: ConnectionState::Closing, ..old(self)@ }));
        }
        GatewayError::MalformedFrame
    }

    /// The transport failed under the connection (the socket could not be
    /// read or written): the connection is closing, and the failure is
    /// surfaced to the caller as a `TransportFailure`, never swallowed.
    pub fn on_transport_error(&mut self) -> (r: GatewayError)
        ensures
            final(self)@ == (EngineView {
                state: ConnectionState::Closing,
                heartbeat: None,
                ..old(self)@
            }),
            final(self)@.wf(),
            r == GatewayError::TransportFailure,
    {
        self.state = ConnectionState::Closing;
        self.heartbeat = None;
        proof {
            assert(final(self)@ =~= (EngineView {
                state: ConnectionState::Closing,
                heartbeat: None,
                ..old(self)@
            }));
        }
        GatewayError::TransportFailure
    }

    /// The identify envelope has been sent: the connection is steady. The
    /// transition is optimistic; no acknowledgment is awaited.
    pub fn identify_sent(&mut self)
        requires
            old(self)@.state == ConnectionState::Identifying,
            old(self)@.wf(),
        ensures
            final(self)@ == (EngineView { state: ConnectionState::Steady, ..old(self)@ }),
            final(self)@.wf(),
    {
        self.state = ConnectionState::Steady;
        proof {
            assert(final(self)@ =~= (EngineView { state: ConnectionState::Steady, ..old(self)@ }));
        }
    }

    /// One steady-state step, exactly as `spec_step` states.
    pub fn step(&mut self, ev: Event) -> (r: Step)
        requires
            old(self)@.state == ConnectionState::Steady,
            old(self)@.wf(),
        ensures
            final(self)@ == spec_step(old(self)@, ev@).0,
            r@ == spec_step(old(self)@, ev@).1,
            final(self)@.wf(),
    {
        match ev {
            Event::Envelope(env) => {
                if let Some(s) = env.sequence {
                    self.last_seq = Some(s);
                }
                if env.opcode == OP_HEARTBEAT_ACK {
                    match self.heartbeat {
                        Some(hb) => {
                            self.heartbeat = Some(HeartbeatState { ack_pending: false, ..hb });
                        },
                        None => {},
                    }
                    Step { action: Action::Nothing, exit: None, log: None }
                } else if env.opcode == OP_HEARTBEAT {
                    Step {
                        action: Action::Send(heartbeat_frame(self.last_seq)),
                        exit: None,
                        log: None,
                    }
                } else if env.opcode == OP_DISPATCH {
                    Step { action: Action::Dispatch(env), exit: None, log: None }
                } else if env.opcode <= OP_GUILD_SYNC {
                    Step { action: Action::Nothing, exit: None, log: None }
                } else {
                    let mut line = String::from_str("Unknown opcode: ");
                    let digits = u64_to_string(env.opcode);
                    line.append(digits.as_str());
                    line.append(". Ignoring...");
                    Step { action: Action::Nothing, exit: None, log: Some(line) }
                }
            },
            Event::Malformed => {
                self.state = ConnectionState::Closing;
                self.heartbeat = None;
                Step {
                    action: Action::Close(CLOSE_PROTOCOL_ERROR, String::new()),
                    exit: Some(LoopExit::ProtocolViolation),
                    log: None,
                }
            },
            Event::TimerFired => {
                match self.heartbeat {
                    Some(hb) => {
                        if hb.ack_pending {
                            self.state = ConnectionState::Closing;
                            self.heartbeat = None;
                            Step {
                                action: Action::Close(CLOSE_PROTOCOL_ERROR, zombie_reason()),
                                exit: Some(LoopExit::Zombied),
                                log: None,
                            }
                        } else {
                            self.heartbeat = Some(
                                HeartbeatState {
                                    interval: hb.interval,
                                    next_fire: hb.next_fire.saturating_add(hb.interval),
                                    ack_pending: true,
                                },
                            );
                            Step {
                                action: Action::Send(heartbeat_frame(self.last_seq)),
                                exit: None,
                                log: None,
                            }
                        }
                    },
                    None => Step { action: Action::Nothing, exit: None, log: None },
                }
            },
            Event::Shutdown => {
                self.state = ConnectionState::Closing;
                self.heartbeat = None;
                Step {
                    action: Action::Close(CLOSE_NORMAL, String::new()),
                    exit: Some(LoopExit::ShutdownRequested),
                    log: None,
                }
            },
            Event::PeerClosed => {
                self.state = ConnectionState::Closing;
                self.heartbeat = None;
                Step { action: Action::Nothing, exit: Some(LoopExit::TransportFailure), log: None }
            },
        }
    }

    /// Decodes one inbound frame of text and steps on the result: a frame
    /// that decodes becomes an envelope event, one that does not becomes a
    /// malformed event and fails the connection.
    pub fn on_frame_text(&mut self, raw: &str) -> (r: Step)
        requires
            old(self)@.state == ConnectionState::Steady,
            old(self)@.wf(),
        ensures
            ({
                let ev = match spec_decode(raw_frame_of(raw@)) {
                    Ok(env) => EventView::Envelope(env),
                    Err(_) => EventView::Malformed,
                };
                &&& final(self)@ == spec_step(old(self)@, ev).0
                &&& r@ == spec_step(old(self)@, ev).1
            }),
            final(self)@.wf(),
    {
        match decode_fields(parse_frame(raw)) {
            Ok(env) => self.step(Event::Envelope(env)),
            Err(_) => self.step(Event::Malformed),
        }
    }

    /// The transport has been released: the connection is closed.
    pub fn closed(&mut self)
        requires
            old(self)@.state == ConnectionState::Closing,
            old(self)@.wf(),
        ensures
            final(self)@ == (EngineView { state: ConnectionState::Closed, ..old(self)@ }),
            final(self)@.wf(),
    {
        self.state = ConnectionState::Closed;
        proof {
            assert(final(self)@ =~= (EngineView { state: ConnectionState::Closed, ..old(self)@ }));
        }
    }
}

/// The human-readable reason attached to a zombie-detection close.
pub fn zombie_reason() -> (r: String)
    ensures
        r@ == "Connection zombied"@,
{
    String::from_str("Connection zombied")
}

/// An event that is an inbound envelope but not a heartbeat acknowledgment.
pub open spec fn is_non_ack_frame(ev: EventView) -> bool {
    ev matches EventView::Envelope(env) && env.opcode != OP_HEARTBEAT_ACK
}

/// The engine state after a run of steps, outputs disregarded.
pub open spec fn run_quiet(e: EngineView, evs: Seq<EventView>) -> EngineView
    decreases evs.len(),
{
    if evs.len() == 0 {
        e
    } else {
        run_quiet(spec_step(e, evs[0]).0, evs.drop_first())
    }
}

/// Inbound envelopes that are not acknowledgments leave the heartbeat
/// scheduler's state untouched and keep the connection steady.
pub proof fn lemma_frames_preserve_heartbeat(e: EngineView, evs: Seq<EventView>)
    requires
        e.wf(),
        e.state == ConnectionState::Steady,
        forall|i: int| 0 <= i < evs.len() ==> is_non_ack_frame(#[trigger] evs[i]),
    ensures
        run_quiet(e, evs).state == ConnectionState::Steady,
        run_quiet(e, evs).heartbeat == e.heartbeat,
        run_quiet(e, evs).wf(),
    decreases evs.len(),
{
    if evs.len() > 0 {
        let e1 = spec_step(e, evs[0]).0;
        lemma_frames_preserve_heartbeat(e1, evs.drop_first());
    }
}

/// If no heartbeat acknowledgment arrives between two consecutive timer
/// fires, the connection transitions to closing on the second fire, not
/// later: the first fire sends a heartbeat and sets the pending flag,
/// inbound frames other than an acknowledgment leave the flag set, and the
/// second fire closes the connection as zombied with the protocol-violation
/// code and reason.
pub proof fn lemma_missed_ack_zombies(e: EngineView, between: Seq<EventView>)
    requires
        e.wf(),
        e.state == ConnectionState::Steady,
        !e.heartbeat->0.ack_pending,
        forall|i: int| 0 <= i < between.len() ==> is_non_ack_frame(#[trigger] between[i]),
    ensures
        ({
            let first = spec_step(e, EventView::TimerFired);
            let mid = run_quiet(first.0, between);
            let second = spec_step(mid, EventView::TimerFired);
            &&& first.1.exit is None
            &&& second.1.exit == Some(LoopExit::Zombied)
            &&& second.0.state == ConnectionState::Closing
            &&& second.1.action == ActionView::Close(CLOSE_PROTOCOL_ERROR, "Connection zombied"@)
        }),
{
    let first = spec_step(e, EventView::TimerFired);
    lemma_frames_preserve_heartbeat(first.0, between);
}

/// Receiving a heartbeat acknowledgment at any time clears the pending
/// flag, so the next timer fire sends a heartbeat instead of declaring the
/// connection zombied.
pub proof fn lemma_ack_clears_pending(e: EngineView, env: EnvelopeView)
    requires
        e.wf(),
        e.state == ConnectionState::Steady,
        env.opcode == OP_HEARTBEAT_ACK,
    ensures
        ({
            let after = spec_step(e, EventView::Envelope(env));
            &&& after.1.exit is None
            &&& after.0.state == ConnectionState::Steady
            &&& !after.0.heartbeat->0.ack_pending
            &&& spec_step(after.0, EventView::TimerFired).1.exit is None
            &&& spec_step(after.0, EventView::TimerFired).1.action == ActionView::Send(
                spec_heartbeat_frame(after.0.last_seq),
            )
        }),
{
}

/// After the jittered first fire, the heartbeat keeps a fixed cadence: a
/// fire with no acknowledgment pending schedules the next fire exactly one
/// interval after the previous, as far as the `u64` millisecond clock
/// reaches (the clock saturates at its end), and keeps the interval.
pub proof fn lemma_fire_cadence(e: EngineView)
    requires
        e.wf(),
        e.state == ConnectionState::Steady,
        e.heartbeat matches Some(hb) && !hb.ack_pending,
    ensures
        ({
            let hb = e.heartbeat->0;
            let after = spec_step(e, EventView::TimerFired).0;
            &&& after.heartbeat matches Some(nb)
            &&& nb.interval == hb.interval
            &&& nb.ack_pending
            &&& hb.next_fire + hb.interval <= u64::MAX ==> nb.next_fire == hb.next_fire
                + hb.interval
        }),
{
}

/// Firing the shutdown signal reaches the loop within one iteration: in
/// every steady state, whatever source the loop was blocked on, the step
/// that observes the signal exits with a shutdown result and a normal-code
/// close frame.
pub proof fn lemma_shutdown_exits(e: EngineView)
    requires
        e.wf(),
        e.state == ConnectionState::Steady,
    ensures
        spec_step(e, EventView::Shutdown).1.exit == Some(LoopExit::ShutdownRequested),
        spec_step(e, EventView::Shutdown).0.state == ConnectionState::Closing,
        spec_step(e, EventView::Shutdown).1.action == ActionView::Close(
            CLOSE_NORMAL,
            Seq::empty(),
        ),
{
}

} // verus!
