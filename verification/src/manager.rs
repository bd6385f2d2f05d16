//! One connection: the routine that reads frames, the routine that writes
//! them, and the control loop that watches both, keeps the link alive and
//! shuts it down.
//!
//! Each of the three is a function from what happened to what to do next.
//! The caller owns the stream, the channels and the clock; it reports events
//! and carries out the answers in the order in which it gets them.

use crate::accept::NodeMsg;
use crate::addr::PeerAddr;
use crate::frame::be_value;
use crate::frame::body_buffer;
use crate::frame::decode_len;
use crate::frame::encode_frame;
use crate::frame::frame_of;
use crate::frame::heartbeat;
use crate::frame::heartbeat_bytes;
use crate::frame::is_heartbeat;
use crate::frame::lemma_be_round_trip;
use crate::frame::FrameError;
use crate::frame::MAX_FRAME_LEN;
use crate::trusted::bytes_of;
use bytes::BytesMut;
use vstd::prelude::*;

verus! {

/// How often a heartbeat is queued while keepalive is on, in milliseconds.
pub const KEEPALIVE_INTERVAL_MS: u64 = 1000;

/// How long the control loop waits between the end of the first routine and
/// the cancellation of the other, in milliseconds.
pub const GRACE_TICK_MS: u64 = 1;

/// How many messages each of the two channels of a connection can hold.
pub const CHANNEL_CAPACITY: usize = 10;

/// How a routine, or the whole connection, came to its end.
#[derive(Debug)]
pub enum Ending {
    /// It was asked to stop, or the other side of its channel went away.
    Clean,
    /// Reading or writing the stream failed, or the stream ended.
    Io(std::io::Error),
    /// The bytes on the stream, or a message to send, broke the wire format.
    Protocol(FrameError),
}

/// What the read routine is told.
#[derive(Debug)]
pub enum ReaderEvent {
    /// Cancellation was raised while the routine waited for a prefix.
    Cancelled,
    /// The four bytes of a length prefix have arrived.
    PrefixRead([u8; 4]),
    /// The buffer handed out for a payload has been filled.
    BodyRead(BytesMut),
    /// Reading failed or met the end of the stream, in a prefix or a payload.
    ReadFailed(std::io::Error),
    /// The inbound channel took the payload.
    Delivered,
    /// The inbound channel has no receiver any more.
    ReceiverGone,
}

/// What the read routine does next.
#[derive(Debug)]
pub enum ReaderAction {
    /// Wait for cancellation or for the next four prefix bytes.
    ReadPrefix,
    /// Fill this buffer from the stream, all of it.
    ReadBody(BytesMut),
    /// Put this payload on the inbound channel.
    Deliver(BytesMut),
    /// End the routine with this result.
    Stop(Ending),
}

/// What [`reader_step`] answers, with buffers taken by their contents.
pub enum ReaderPlan {
    ReadPrefix,
    ReadBody(Seq<u8>),
    Deliver(Seq<u8>),
    Stop(Ending),
}

/// The contents of the buffers of an action.
pub open spec fn reader_action_view(a: ReaderAction) -> ReaderPlan {
    match a {
        ReaderAction::ReadPrefix => ReaderPlan::ReadPrefix,
        ReaderAction::ReadBody(b) => ReaderPlan::ReadBody(bytes_of(b)),
        ReaderAction::Deliver(b) => ReaderPlan::Deliver(bytes_of(b)),
        ReaderAction::Stop(e) => ReaderPlan::Stop(e),
    }
}

/// The rule of the read routine.
///
/// A prefix within the limit asks for a payload of the announced length, one
/// above it ends the routine before anything is allocated. Every payload
/// that was read goes to the inbound channel as it is, a heartbeat too: who
/// takes payloads from the channel tells heartbeats from data. Cancellation
/// and a vanished receiver end the routine cleanly, a failed read ends it
/// with the error.
pub open spec fn reader_plan(event: ReaderEvent) -> ReaderPlan {
    match event {
        ReaderEvent::Cancelled => ReaderPlan::Stop(Ending::Clean),
        ReaderEvent::PrefixRead(prefix) => if be_value(prefix@) <= MAX_FRAME_LEN {
            ReaderPlan::ReadBody(Seq::new(be_value(prefix@), |i: int| 0u8))
        } else {
            ReaderPlan::Stop(Ending::Protocol(FrameError::TooLarge))
        },
        ReaderEvent::BodyRead(payload) => ReaderPlan::Deliver(bytes_of(payload)),
        ReaderEvent::ReadFailed(error) => ReaderPlan::Stop(Ending::Io(error)),
        ReaderEvent::Delivered => ReaderPlan::ReadPrefix,
        ReaderEvent::ReceiverGone => ReaderPlan::Stop(Ending::Clean),
    }
}

/// Decides what the read routine does after `event`. The routine starts
/// with [`ReaderAction::ReadPrefix`].
pub fn reader_step(event: ReaderEvent) -> (action: ReaderAction)
    ensures
        reader_action_view(action) == reader_plan(event),
{
    match event {
        ReaderEvent::Cancelled => ReaderAction::Stop(Ending::Clean),
        ReaderEvent::PrefixRead(prefix) => match decode_len(&prefix) {
            Ok(len) => match body_buffer(len) {
                Ok(body) => ReaderAction::ReadBody(body),
                Err(e) => ReaderAction::Stop(Ending::Protocol(e)),
            },
            Err(e) => ReaderAction::Stop(Ending::Protocol(e)),
        },
        ReaderEvent::BodyRead(payload) => ReaderAction::Deliver(payload),
        ReaderEvent::ReadFailed(error) => ReaderAction::Stop(Ending::Io(error)),
        ReaderEvent::Delivered => ReaderAction::ReadPrefix,
        ReaderEvent::ReceiverGone => ReaderAction::Stop(Ending::Clean),
    }
}

/// What the write routine is told.
#[derive(Debug)]
pub enum WriterEvent {
    /// Cancellation was raised while the routine waited for a message.
    Cancelled,
    /// A message was taken from the outbound channel. `cancelled` tells
    /// whether cancellation had been raised by then.
    Message { payload: BytesMut, cancelled: bool },
    /// The outbound channel has no sender any more.
    ChannelClosed,
    /// The frame handed out last has been written, all of it.
    Written,
    /// Writing failed.
    WriteFailed(std::io::Error),
}

/// What the write routine does next.
#[derive(Debug)]
pub enum WriterAction {
    /// Wait for cancellation or for the next message.
    Wait,
    /// Write these bytes to the stream in one piece.
    Write(BytesMut),
    /// End the routine with this result.
    Stop(Ending),
}

/// What [`writer_step`] answers, with buffers taken by their contents.
pub enum WriterPlan {
    Wait,
    Write(Seq<u8>),
    Stop(Ending),
}

/// The contents of the buffer of an action.
pub open spec fn writer_action_view(a: WriterAction) -> WriterPlan {
    match a {
        WriterAction::Wait => WriterPlan::Wait,
        WriterAction::Write(b) => WriterPlan::Write(bytes_of(b)),
        WriterAction::Stop(e) => WriterPlan::Stop(e),
    }
}

/// The rule of the write routine.
///
/// A message becomes one buffer that holds its prefix and its payload, so
/// that no other frame can come between the two. Once cancellation is
/// raised nothing more is written: a message taken after that is dropped.
pub open spec fn writer_plan(event: WriterEvent) -> WriterPlan {
    match event {
        WriterEvent::Cancelled => WriterPlan::Stop(Ending::Clean),
        WriterEvent::Message { payload, cancelled } => if cancelled {
            WriterPlan::Stop(Ending::Clean)
        } else if bytes_of(payload).len() <= MAX_FRAME_LEN {
            WriterPlan::Write(frame_of(bytes_of(payload)))
        } else {
            WriterPlan::Stop(Ending::Protocol(FrameError::TooLarge))
        },
        WriterEvent::ChannelClosed => WriterPlan::Stop(Ending::Clean),
        WriterEvent::Written => WriterPlan::Wait,
        WriterEvent::WriteFailed(error) => WriterPlan::Stop(Ending::Io(error)),
    }
}

/// Decides what the write routine does after `event`. The routine starts
/// with [`WriterAction::Wait`].
pub fn writer_step(event: WriterEvent) -> (action: WriterAction)
    ensures
        writer_action_view(action) == writer_plan(event),
{
    match event {
        WriterEvent::Cancelled => WriterAction::Stop(Ending::Clean),
        WriterEvent::Message { payload, cancelled } => if cancelled {
            WriterAction::Stop(Ending::Clean)
        } else {
            match encode_frame(payload) {
                Ok(frame) => WriterAction::Write(frame),
                Err(e) => WriterAction::Stop(Ending::Protocol(e)),
            }
        },
        WriterEvent::ChannelClosed => WriterAction::Stop(Ending::Clean),
        WriterEvent::Written => WriterAction::Wait,
        WriterEvent::WriteFailed(error) => WriterAction::Stop(Ending::Io(error)),
    }
}

/// One of the two routines of a connection.
#[derive(Clone, Copy, Debug, PartialEq, Eq, Structural)]
pub enum Routine {
    Reader,
    Writer,
}

/// What started the shutdown of a connection.
#[derive(Clone, Copy, Debug, PartialEq, Eq, Structural)]
pub enum Cause {
    /// This routine ended.
    Ended(Routine),
    /// The application did not take the channel ends.
    HandoverFailed,
    /// The owner of the connection asked for it to stop.
    StopRequested,
}

/// How far a connection has come.
#[derive(Debug)]
pub enum Stage {
    /// The stream is being split and the routines are being started. No
    /// channel has been handed to the application yet.
    Wiring,
    /// Both routines run.
    Running,
    /// The shutdown has begun, for the reason that `cause` gives, and the
    /// connection will end as `ending` says. The routines that still run
    /// have yet to be told.
    ShuttingDown { cause: Cause, ending: Ending },
    /// Cancellation has been raised and the outcome handed out.
    Finished,
}

/// What the control loop is told.
#[derive(Debug)]
pub enum ControlEvent {
    /// Each routine has been started with its half of the stream and its
    /// end of a channel.
    RoutinesStarted,
    /// The application did not take the channel ends that were handed over:
    /// nobody is left to use the connection.
    HandoverFailed,
    /// The owner of the connection asks for it to stop.
    StopRequested,
    /// A routine has ended.
    RoutineEnded(Routine, Ending),
    /// The keepalive interval has passed.
    KeepaliveTick,
    /// The grace tick has passed.
    GraceTick,
}

/// What the control loop does next.
#[derive(Debug)]
pub enum ControlAction {
    /// Wait for the next event.
    Wait,
    /// Hand the application its two channel ends, then wait. Where the
    /// application does not take them, report
    /// [`ControlEvent::HandoverFailed`]. The inbound end carries every
    /// payload that the peer sent, heartbeats among them.
    HandOver,
    /// Put this heartbeat on the outbound channel, then wait.
    QueueHeartbeat(BytesMut),
    /// Raise cancellation and return this outcome.
    Finish(Ending),
}

/// What [`ControlLoop::step`] answers, with buffers taken by their contents.
pub enum ControlPlan {
    Wait,
    HandOver,
    QueueHeartbeat(Seq<u8>),
    Finish(Ending),
}

/// The contents of the buffer of an action.
pub open spec fn control_action_view(a: ControlAction) -> ControlPlan {
    match a {
        ControlAction::Wait => ControlPlan::Wait,
        ControlAction::HandOver => ControlPlan::HandOver,
        ControlAction::QueueHeartbeat(b) => ControlPlan::QueueHeartbeat(bytes_of(b)),
        ControlAction::Finish(e) => ControlPlan::Finish(e),
    }
}

/// Which clock the control loop watches.
#[derive(Clone, Copy, Debug, PartialEq, Eq, Structural)]
pub enum Timer {
    /// Report a [`ControlEvent::KeepaliveTick`] every
    /// [`KEEPALIVE_INTERVAL_MS`].
    Keepalive,
    /// Report a [`ControlEvent::GraceTick`] after [`GRACE_TICK_MS`].
    Grace,
    /// No clock: nothing is timed before the routines run or after the end.
    Off,
}

/// The state of a control loop as mathematical values.
pub struct ControlView {
    pub keep_alive: bool,
    pub stage: Stage,
}

/// The control loop of one connection.
#[derive(Debug)]
pub struct ControlLoop {
    keep_alive: bool,
    stage: Stage,
}

impl View for ControlLoop {
    type V = ControlView;

    closed spec fn view(&self) -> ControlView {
        ControlView { keep_alive: self.keep_alive, stage: self.stage }
    }
}

/// The shutdown that `event` starts in a connection that is not shutting
/// down yet, if it starts one: a routine that ends leaves its own ending,
/// a handover that failed and a request to stop end the connection cleanly.
pub open spec fn shutdown_by(event: ControlEvent) -> Option<(Cause, Ending)> {
    match event {
        ControlEvent::RoutineEnded(routine, ending) => Some((Cause::Ended(routine), ending)),
        ControlEvent::HandoverFailed => Some((Cause::HandoverFailed, Ending::Clean)),
        ControlEvent::StopRequested => Some((Cause::StopRequested, Ending::Clean)),
        _ => None,
    }
}

/// The state after `event`.
///
/// The connection runs once its routines are started. The first event that
/// starts the shutdown settles the outcome; what is reported later changes
/// nothing. The grace tick ends a shutdown, and only a shutdown.
pub open spec fn control_next(s: ControlView, event: ControlEvent) -> ControlView {
    match s.stage {
        Stage::Wiring | Stage::Running => match shutdown_by(event) {
            Some((cause, ending)) => ControlView {
                stage: Stage::ShuttingDown { cause, ending },
                ..s
            },
            None => if s.stage is Wiring && event is RoutinesStarted {
                ControlView { stage: Stage::Running, ..s }
            } else {
                s
            },
        },
        Stage::ShuttingDown { .. } => if event is GraceTick {
            ControlView { stage: Stage::Finished, ..s }
        } else {
            s
        },
        Stage::Finished => s,
    }
}

/// The answer to `event`.
///
/// The channel ends are handed to the application when the routines have
/// been started, and at no other time. A heartbeat is queued on a keepalive
/// tick while both routines run and keepalive is on, and at no other time.
/// The grace tick of a shutdown raises cancellation and hands out the
/// outcome that was settled when the shutdown began.
pub open spec fn control_plan(s: ControlView, event: ControlEvent) -> ControlPlan {
    match (s.stage, event) {
        (Stage::Wiring, ControlEvent::RoutinesStarted) => ControlPlan::HandOver,
        (Stage::Running, ControlEvent::KeepaliveTick) => if s.keep_alive {
            ControlPlan::QueueHeartbeat(heartbeat_bytes())
        } else {
            ControlPlan::Wait
        },
        (Stage::ShuttingDown { cause, ending }, ControlEvent::GraceTick) => ControlPlan::Finish(
            ending,
        ),
        _ => ControlPlan::Wait,
    }
}

/// The clock to watch in state `s`.
pub open spec fn control_timer(s: ControlView) -> Timer {
    match s.stage {
        Stage::Wiring => Timer::Off,
        Stage::Running => Timer::Keepalive,
        Stage::ShuttingDown { .. } => Timer::Grace,
        Stage::Finished => Timer::Off,
    }
}

impl ControlLoop {
    /// The control loop of a connection whose stream is about to be split.
    pub fn new(keep_alive: bool) -> (c: ControlLoop)
        ensures
            c@ == (ControlView { keep_alive, stage: Stage::Wiring }),
    {
        ControlLoop { keep_alive, stage: Stage::Wiring }
    }

    /// Whether this end sends heartbeats.
    pub fn keep_alive(&self) -> (k: bool)
        ensures
            k == self@.keep_alive,
    {
        self.keep_alive
    }

    /// Whether a routine has ended, so that the connection is on its way
    /// down or already down.
    pub fn is_shutting_down(&self) -> (b: bool)
        ensures
            b == (self@.stage is ShuttingDown || self@.stage is Finished),
    {
        match &self.stage {
            Stage::Wiring => false,
            Stage::Running => false,
            _ => true,
        }
    }

    /// Which clock to watch until the next event.
    pub fn timer(&self) -> (t: Timer)
        ensures
            t == control_timer(self@),
    {
        match &self.stage {
            Stage::Wiring => Timer::Off,
            Stage::Running => Timer::Keepalive,
            Stage::ShuttingDown { .. } => Timer::Grace,
            Stage::Finished => Timer::Off,
        }
    }

    /// Takes note of `event` and decides what to do next.
    pub fn step(&mut self, event: ControlEvent) -> (action: ControlAction)
        ensures
            final(self)@ == control_next(old(self)@, event),
            control_action_view(action) == control_plan(old(self)@, event),
    {
        let mut stage = Stage::Finished;
        core::mem::swap(&mut self.stage, &mut stage);
        match (stage, event) {
            (Stage::Wiring, ControlEvent::RoutinesStarted) => {
                self.stage = Stage::Running;
                ControlAction::HandOver
            },
            (Stage::Wiring | Stage::Running, ControlEvent::RoutineEnded(routine, ending)) => {
                self.stage = Stage::ShuttingDown { cause: Cause::Ended(routine), ending };
                ControlAction::Wait
            },
            (Stage::Wiring | Stage::Running, ControlEvent::HandoverFailed) => {
                self.stage = Stage::ShuttingDown {
                    cause: Cause::HandoverFailed,
                    ending: Ending::Clean,
                };
                ControlAction::Wait
            },
            (Stage::Wiring | Stage::Running, ControlEvent::StopRequested) => {
                self.stage = Stage::ShuttingDown {
                    cause: Cause::StopRequested,
                    ending: Ending::Clean,
                };
                ControlAction::Wait
            },
            (Stage::Running, ControlEvent::KeepaliveTick) => {
                self.stage = Stage::Running;
                if self.keep_alive {
                    ControlAction::QueueHeartbeat(heartbeat())
                } else {
                    ControlAction::Wait
                }
            },
            (Stage::ShuttingDown { cause, ending }, ControlEvent::GraceTick) => {
                ControlAction::Finish(ending)
            },
            (stage, _) => {
                self.stage = stage;
                ControlAction::Wait
            },
        }
    }
}

/// How often a run of events, taken one after the other from state `s`,
/// gives an answer that `wanted` holds of.
pub open spec fn answers(
    s: ControlView,
    events: Seq<ControlEvent>,
    wanted: spec_fn(ControlPlan) -> bool,
) -> nat
    decreases events.len(),
{
    if events.len() == 0 {
        0
    } else {
        let here: nat = if wanted(control_plan(s, events[0])) {
            1
        } else {
            0
        };
        here + answers(control_next(s, events[0]), events.drop_first(), wanted)
    }
}

/// The outcome that a run of events, taken one after the other from state
/// `s`, hands out first, if it hands one out.
pub open spec fn outcome(s: ControlView, events: Seq<ControlEvent>) -> Option<Ending>
    decreases events.len(),
{
    if events.len() == 0 {
        None
    } else {
        match control_plan(s, events[0]) {
            ControlPlan::Finish(ending) => Some(ending),
            _ => outcome(control_next(s, events[0]), events.drop_first()),
        }
    }
}

/// The ending that the first event of a run which starts a shutdown
/// settles, if the run holds such an event.
pub open spec fn first_ending(events: Seq<ControlEvent>) -> Option<Ending>
    decreases events.len(),
{
    if events.len() == 0 {
        None
    } else {
        match shutdown_by(events[0]) {
            Some((_, ending)) => Some(ending),
            None => first_ending(events.drop_first()),
        }
    }
}

/// The channel ends reach the application only after both routines have
/// been started, and they are handed over once: whatever a control loop is
/// told, it answers with a handover exactly when it learns, while wiring,
/// that the routines are started, and that ends the wiring.
pub proof fn lemma_handover_follows_wiring(s: ControlView, events: Seq<ControlEvent>)
    ensures
        forall|event: ControlEvent|
            #[trigger] control_plan(s, event) is HandOver <==> (s.stage is Wiring
                && event is RoutinesStarted),
        forall|event: ControlEvent|
            control_plan(s, event) is HandOver ==> !((#[trigger] control_next(
                s,
                event,
            )).stage is Wiring),
        answers(s, events, |p: ControlPlan| p is HandOver) <= 1,
        !(s.stage is Wiring) ==> answers(s, events, |p: ControlPlan| p is HandOver) == 0,
    decreases events.len(),
{
    if events.len() > 0 {
        lemma_handover_follows_wiring(control_next(s, events[0]), events.drop_first());
    }
}

/// Heartbeats stop with the first routine that ends: a keepalive tick queues
/// one exactly when keepalive is on and both routines run.
pub proof fn lemma_keepalive_only_while_running(s: ControlView)
    ensures
        control_plan(s, ControlEvent::KeepaliveTick) is QueueHeartbeat <==> (s.keep_alive
            && s.stage is Running),
        control_next(s, ControlEvent::KeepaliveTick) == s,
{
}

/// Cancellation is raised by the grace tick of a shutdown and by nothing
/// else, and the outcome handed out with it is the one that was settled
/// when the shutdown began.
pub proof fn lemma_finish_follows_first_ending(s: ControlView, event: ControlEvent, out: Ending)
    ensures
        control_plan(s, event) == ControlPlan::Finish(out) <==> (event is GraceTick
            && s.stage is ShuttingDown && s.stage->ending == out),
{
}

/// Whatever starts the shutdown settles the outcome: during a shutdown the
/// end of a routine, a request to stop and the keepalive ticks leave the
/// state as it is.
pub proof fn lemma_first_ending_wins(s: ControlView, event: ControlEvent)
    requires
        s.stage is ShuttingDown,
        !(event is GraceTick),
    ensures
        control_next(s, event) == s,
        control_plan(s, event) == ControlPlan::Wait,
{
}

/// A control loop hands out at most one outcome, whatever it is told and in
/// whatever order, and none once it has finished.
pub proof fn lemma_at_most_one_outcome(s: ControlView, events: Seq<ControlEvent>)
    ensures
        answers(s, events, |p: ControlPlan| p is Finish) <= 1,
        s.stage is Finished ==> answers(s, events, |p: ControlPlan| p is Finish) == 0,
    decreases events.len(),
{
    if events.len() > 0 {
        lemma_at_most_one_outcome(control_next(s, events[0]), events.drop_first());
    }
}

/// The outcome of a connection is the ending of what was seen first to
/// start its shutdown: the routine that ended first, or a clean ending
/// where a failed handover or a request to stop came before. Where both
/// routines end at nearly the same time, the one that is reported first
/// wins, and which one that is, is left open.
pub proof fn lemma_outcome_is_first_ending(s: ControlView, events: Seq<ControlEvent>)
    ensures
        (s.stage is Wiring || s.stage is Running) && outcome(s, events) is Some ==> outcome(
            s,
            events,
        ) == first_ending(events),
        s.stage is ShuttingDown && outcome(s, events) is Some ==> outcome(s, events) == Some(
            s.stage->ending,
        ),
        s.stage is Finished ==> outcome(s, events) is None,
    decreases events.len(),
{
    if events.len() > 0 {
        lemma_outcome_is_first_ending(control_next(s, events[0]), events.drop_first());
    }
}

/// What the write routine writes for a payload within the limit, the read
/// routine of the other end delivers once and with the same bytes, whatever
/// the payload is, the heartbeat not excepted: the prefix asks for a body of
/// the payload's length, and the body that was read is delivered as it is.
pub proof fn lemma_delivered_as_written(payload: BytesMut, prefix: [u8; 4], body: BytesMut)
    requires
        bytes_of(payload).len() <= MAX_FRAME_LEN,
        prefix@ == frame_of(bytes_of(payload)).take(4),
        bytes_of(body) == frame_of(bytes_of(payload)).skip(4),
    ensures
        writer_plan(WriterEvent::Message { payload, cancelled: false }) == WriterPlan::Write(
            frame_of(bytes_of(payload)),
        ),
        reader_plan(ReaderEvent::PrefixRead(prefix)) == ReaderPlan::ReadBody(
            Seq::new(bytes_of(payload).len(), |i: int| 0u8),
        ),
        reader_plan(ReaderEvent::BodyRead(body)) == ReaderPlan::Deliver(bytes_of(payload)),
        reader_plan(ReaderEvent::Delivered) == ReaderPlan::ReadPrefix,
{
    let bytes = bytes_of(payload);
    lemma_be_round_trip(bytes.len() as u32, bytes);
    assert(frame_of(bytes).skip(4) =~= bytes);
}

/// Nothing is written once cancellation is raised: an idle write routine
/// ends at once, and a message that it takes from the channel after that is
/// dropped, not written. Messages still queued at shutdown are not sent.
pub proof fn lemma_nothing_written_after_cancellation(event: WriterEvent)
    requires
        event is Cancelled || (event is Message && event->cancelled),
    ensures
        writer_plan(event) == WriterPlan::Stop(Ending::Clean),
{
}

/// Once the shutdown has begun, the first grace tick ends the control loop:
/// an idle routine that waits on the cancellation is released no later
/// than that. This holds whether a routine ended, the handover failed or a
/// stop was asked for.
pub proof fn lemma_grace_tick_ends_shutdown(s: ControlView, event: ControlEvent)
    requires
        s.stage is Running || s.stage is Wiring,
        shutdown_by(event) is Some,
    ensures
        control_timer(control_next(s, event)) == Timer::Grace,
        shutdown_by(event) matches Some((_, ending)) && control_plan(
            control_next(s, event),
            ControlEvent::GraceTick,
        ) == ControlPlan::Finish(ending),
        control_next(control_next(s, event), ControlEvent::GraceTick).stage is Finished,
{
}

/// How many messages the channel from the registry to one node can hold.
pub const NODE_CHANNEL_CAPACITY: usize = 20;

/// How far the supervisor of one node has come.
#[derive(Clone, Copy, Debug, PartialEq, Eq, Structural)]
pub enum ShimStage {
    /// The control loop of the connection is not up yet.
    Starting,
    /// The connection is up and has been announced.
    Active,
    /// The connection is gone. Nothing more is reported.
    Closed,
}

/// What the supervisor of one node is told.
#[derive(Debug)]
pub enum ShimEvent {
    /// The control loop is up. `outbound` and `close` are the handles that
    /// the registry gets: one for messages to the node, one that asks for
    /// the connection to be closed.
    Established {
        outbound: tokio::sync::mpsc::Sender<BytesMut>,
        close: Option<tokio::sync::oneshot::Sender<()>>,
    },
    /// The connection delivered a payload.
    Inbound(BytesMut),
    /// The connection delivers nothing more: the peer closed it or reading
    /// failed.
    InboundClosed,
    /// The registry wants this payload sent to the node.
    Outbound(BytesMut),
    /// The connection did not take a payload that was relayed to it.
    RelayFailed,
    /// The registry has dropped its handle for messages to the node.
    UpperClosed,
    /// The registry has asked for the connection to be closed.
    CloseRequested,
}

/// What the supervisor of one node does next.
#[derive(Debug)]
pub enum ShimAction {
    /// Wait for the next event.
    Idle,
    /// Report these two messages to the registry, in this order.
    Announce(NodeMsg, NodeMsg),
    /// Report this message to the registry.
    Forward(NodeMsg),
    /// Hand this payload to the connection for sending.
    Relay(BytesMut),
    /// Ask the control loop of the connection to stop, report `notice` to
    /// the registry and end. Where `close_inbound` is set, close the
    /// inbound channel of the connection first.
    Disconnect { notice: NodeMsg, close_inbound: bool },
}

/// The state of the supervisor of one node as mathematical values.
pub struct ShimView {
    pub address: PeerAddr,
    pub stage: ShimStage,
}

/// The supervisor of one accepted connection.
#[derive(Debug)]
pub struct NodeShim {
    address: PeerAddr,
    stage: ShimStage,
}

impl View for NodeShim {
    type V = ShimView;

    closed spec fn view(&self) -> ShimView {
        ShimView { address: self.address, stage: self.stage }
    }
}

/// Whether `event` ends a connection that is up.
pub open spec fn ends_connection(event: ShimEvent) -> bool {
    event is InboundClosed || event is RelayFailed || event is UpperClosed
        || event is CloseRequested
}

/// The state after `event`.
pub open spec fn shim_next(s: ShimView, event: ShimEvent) -> ShimView {
    match s.stage {
        ShimStage::Starting => if event is Established {
            ShimView { stage: ShimStage::Active, ..s }
        } else if ends_connection(event) {
            ShimView { stage: ShimStage::Closed, ..s }
        } else {
            s
        },
        ShimStage::Active => if ends_connection(event) {
            ShimView { stage: ShimStage::Closed, ..s }
        } else {
            s
        },
        ShimStage::Closed => s,
    }
}

/// The answer to `event`.
///
/// A connection is announced when it comes up, first as connected and then
/// with its handles. While it is up, payloads from the node go to the
/// registry unless they are heartbeats, and payloads from the registry go
/// to the connection. Whatever ends it, the end is reported once. A
/// connection that never came up is never reported.
pub open spec fn shim_plan(s: ShimView, event: ShimEvent) -> ShimAction {
    match s.stage {
        ShimStage::Starting => match event {
            ShimEvent::Established { outbound, close } => ShimAction::Announce(
                NodeMsg::Connected(s.address),
                NodeMsg::Sender(s.address, outbound, close),
            ),
            _ => ShimAction::Idle,
        },
        ShimStage::Active => match event {
            ShimEvent::Established { .. } => ShimAction::Idle,
            ShimEvent::Inbound(payload) => if bytes_of(payload) == heartbeat_bytes() {
                ShimAction::Idle
            } else {
                ShimAction::Forward(NodeMsg::Event(s.address, payload))
            },
            ShimEvent::InboundClosed => ShimAction::Disconnect {
                notice: NodeMsg::Disconnected(s.address),
                close_inbound: false,
            },
            ShimEvent::Outbound(payload) => ShimAction::Relay(payload),
            ShimEvent::RelayFailed => ShimAction::Disconnect {
                notice: NodeMsg::Disconnected(s.address),
                close_inbound: false,
            },
            ShimEvent::UpperClosed => ShimAction::Disconnect {
                notice: NodeMsg::Disconnected(s.address),
                close_inbound: true,
            },
            ShimEvent::CloseRequested => ShimAction::Disconnect {
                notice: NodeMsg::Disconnected(s.address),
                close_inbound: true,
            },
        },
        ShimStage::Closed => ShimAction::Idle,
    }
}

impl NodeShim {
    /// The supervisor of a connection from `address` whose control loop is
    /// about to start.
    pub fn new(address: PeerAddr) -> (s: NodeShim)
        ensures
            s@ == (ShimView { address, stage: ShimStage::Starting }),
    {
        NodeShim { address, stage: ShimStage::Starting }
    }

    /// The address of the node.
    pub fn address(&self) -> (a: PeerAddr)
        ensures
            a == self@.address,
    {
        self.address
    }

    /// How far the supervisor has come.
    pub fn stage(&self) -> (s: ShimStage)
        ensures
            s == self@.stage,
    {
        self.stage
    }

    /// Takes note of `event` and decides what to do next.
    pub fn step(&mut self, event: ShimEvent) -> (action: ShimAction)
        ensures
            final(self)@ == shim_next(old(self)@, event),
            action == shim_plan(old(self)@, event),
    {
        match self.stage {
            ShimStage::Starting => match event {
                ShimEvent::Established { outbound, close } => {
                    self.stage = ShimStage::Active;
                    ShimAction::Announce(
                        NodeMsg::Connected(self.address),
                        NodeMsg::Sender(self.address, outbound, close),
                    )
                },
                ShimEvent::InboundClosed | ShimEvent::RelayFailed | ShimEvent::UpperClosed
                | ShimEvent::CloseRequested => {
                    self.stage = ShimStage::Closed;
                    ShimAction::Idle
                },
                _ => ShimAction::Idle,
            },
            ShimStage::Active => match event {
                ShimEvent::Established { .. } => ShimAction::Idle,
                ShimEvent::Inbound(payload) => if is_heartbeat(&payload) {
                    ShimAction::Idle
                } else {
                    ShimAction::Forward(NodeMsg::Event(self.address, payload))
                },
                ShimEvent::Outbound(payload) => ShimAction::Relay(payload),
                ShimEvent::InboundClosed | ShimEvent::RelayFailed => {
                    self.stage = ShimStage::Closed;
                    ShimAction::Disconnect {
                        notice: NodeMsg::Disconnected(self.address),
                        close_inbound: false,
                    }
                },
                ShimEvent::UpperClosed | ShimEvent::CloseRequested => {
                    self.stage = ShimStage::Closed;
                    ShimAction::Disconnect {
                        notice: NodeMsg::Disconnected(self.address),
                        close_inbound: true,
                    }
                },
            },
            ShimStage::Closed => ShimAction::Idle,
        }
    }
}

/// The messages that an action reports to the registry, in order.
pub open spec fn reported(action: ShimAction) -> Seq<NodeMsg> {
    match action {
        ShimAction::Announce(first, second) => seq![first, second],
        ShimAction::Forward(msg) => seq![msg],
        ShimAction::Disconnect { notice, .. } => seq![notice],
        _ => Seq::empty(),
    }
}

/// The state that a run of events, taken one after the other, leads to.
pub open spec fn shim_run(s: ShimView, events: Seq<ShimEvent>) -> ShimView
    decreases events.len(),
{
    if events.len() == 0 {
        s
    } else {
        shim_next(shim_run(s, events.drop_last()), events.last())
    }
}

/// All that a run of events reports to the registry, in order.
pub open spec fn shim_trace(s: ShimView, events: Seq<ShimEvent>) -> Seq<NodeMsg>
    decreases events.len(),
{
    if events.len() == 0 {
        Seq::empty()
    } else {
        shim_trace(s, events.drop_last()) + reported(
            shim_plan(shim_run(s, events.drop_last()), events.last()),
        )
    }
}

/// The order that the reports of one connection keep: `Connected` stands
/// first and nowhere else, `Sender` second and nowhere else, every `Event`
/// after them, and `Disconnected` last if at all; every report names
/// `address`, and no `Event` carries a heartbeat.
pub open spec fn in_order(trace: Seq<NodeMsg>, address: PeerAddr) -> bool {
    forall|i: int|
        0 <= i < trace.len() ==> match #[trigger] trace[i] {
            NodeMsg::Connected(a) => a == address && i == 0,
            NodeMsg::Sender(a, _, _) => a == address && i == 1,
            NodeMsg::Event(a, payload) => a == address && i >= 2 && bytes_of(payload)
                != heartbeat_bytes(),
            NodeMsg::Disconnected(a) => a == address && i >= 2 && i == trace.len() - 1,
        }
}

/// Whatever a supervisor is told, and in whatever order, its reports keep
/// the order of a connection. It has reported nothing before the connection
/// is up, and after the connection is gone its last report, if it made any,
/// is the one `Disconnected`.
pub proof fn lemma_reports_in_order(address: PeerAddr, events: Seq<ShimEvent>)
    ensures
        ({
            let start = ShimView { address, stage: ShimStage::Starting };
            let end = shim_run(start, events);
            let trace = shim_trace(start, events);
            &&& end.address == address
            &&& in_order(trace, address)
            &&& end.stage is Starting ==> trace.len() == 0
            &&& end.stage is Active ==> trace.len() >= 2 && !(trace.last() is Disconnected)
            &&& end.stage is Closed ==> trace.len() == 0 || trace.last() is Disconnected
        }),
    decreases events.len(),
{
    if events.len() > 0 {
        lemma_reports_in_order(address, events.drop_last());
    }
}

} // verus!
