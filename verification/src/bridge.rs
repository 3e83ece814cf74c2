//! The socket bridge: for one upgraded connection, the decisions that pump
//! data between the WebSocket and its transport endpoint.
//!
//! The bridge is a state machine. Whoever drives it performs each action the
//! bridge asks for and hands the result back as the next event; the bridge
//! itself never touches the endpoint or the WebSocket.

use crate::endpoint::{
    reads_view, ReadStatus, ReadView, ReadsView, WardenclyffeRead, WardenclyffeReads,
    WardenclyffeSocket,
};
use crate::http::Request;
use vstd::prelude::*;

verus! {

/// The status code of a `Close` frame.
#[derive(Clone, Copy, Debug, PartialEq, Eq, Structural)]
pub enum CloseCode {
    /// The endpoint came to its end.
    Normal,
    /// Reading from the endpoint failed.
    Error,
}

impl CloseCode {
    /// The code on the wire: 1000 for a normal closure, 1011 for an error.
    pub open spec fn spec_code(self) -> u16 {
        match self {
            CloseCode::Normal => 1000,
            CloseCode::Error => 1011,
        }
    }

    /// The reason sent along with the code.
    pub open spec fn spec_reason(self) -> Seq<char> {
        match self {
            CloseCode::Normal => "EOF"@,
            CloseCode::Error => "read failed"@,
        }
    }

    /// The code on the wire.
    pub fn code(&self) -> (code: u16)
        ensures
            code == self.spec_code(),
    {
        match self {
            CloseCode::Normal => 1000,
            CloseCode::Error => 1011,
        }
    }

    /// The reason sent along with the code.
    pub fn reason(&self) -> (reason: &'static str)
        ensures
            reason@ == self.spec_reason(),
    {
        match self {
            CloseCode::Normal => "EOF",
            CloseCode::Error => "read failed",
        }
    }
}

/// A WebSocket message that the bridge sends to the client.
#[derive(Clone, Debug, PartialEq, Eq)]
pub enum Frame {
    Text(Vec<u8>),
    Binary(Vec<u8>),
    Close(CloseCode),
}

/// The mathematical content of a [`Frame`].
pub ghost enum FrameView {
    Text(Seq<u8>),
    Binary(Seq<u8>),
    Close(CloseCode),
}

impl View for Frame {
    type V = FrameView;

    open spec fn view(&self) -> FrameView {
        match self {
            Frame::Text(data) => FrameView::Text(data@),
            Frame::Binary(data) => FrameView::Binary(data@),
            Frame::Close(code) => FrameView::Close(*code),
        }
    }
}

/// The frame that forwards one read: text where the read is out of band,
/// binary otherwise.
pub open spec fn frame_of(read: ReadView) -> FrameView {
    if read.is_text() {
        FrameView::Text(read.data)
    } else {
        FrameView::Binary(read.data)
    }
}

/// Why a bridge came to its end.
#[derive(Clone, Copy, Debug, PartialEq, Eq, Structural)]
pub enum Ending {
    /// The path cannot be handed to the provider: it holds a zero byte.
    InvalidPath,
    /// The provider answered the creation with the null handle.
    CreateFailed,
    /// The client's message stream ended or failed.
    ClientGone,
    /// The endpoint refused a write.
    WriteFailed,
    /// A read of the endpoint failed.
    ReadFailed,
    /// The endpoint came to its end.
    Eof,
    /// A message could not be sent to the client.
    SendFailed,
}

impl Ending {
    /// Whether an endpoint existed when the bridge ended.
    pub open spec fn spec_had_endpoint(&self) -> bool {
        *self != Ending::InvalidPath && *self != Ending::CreateFailed
    }

    /// Whether an endpoint existed when the bridge ended; where none did, the
    /// bridge never got to work.
    #[verifier::when_used_as_spec(spec_had_endpoint)]
    pub fn had_endpoint(&self) -> (had: bool)
        ensures
            had == self.spec_had_endpoint(),
    {
        match self {
            Ending::InvalidPath => false,
            Ending::CreateFailed => false,
            _ => true,
        }
    }
}

/// Where a bridge stands in its life.
#[derive(Clone, Copy, Debug, PartialEq, Eq, Structural)]
pub enum Phase {
    /// Waiting for the WebSocket to be established.
    Idle,
    /// Waiting for the provider to create the endpoint.
    Creating,
    /// Waiting for the endpoint's capability flags.
    Probing,
    /// Both pumps are at work.
    Running,
    /// The bridge is over; nothing follows.
    Closed(Ending),
}

/// What the outbound pump (endpoint to client) is waiting for.
#[derive(Clone, Copy, Debug, PartialEq, Eq, Structural)]
pub enum Outbound {
    /// Nothing: the pump is not at work, or the endpoint cannot be read.
    Idle,
    /// The result of a read.
    Reading,
    /// The result of sending one message of the current batch.
    Sending,
}

/// What happened outside the bridge.
#[derive(Clone, Debug, PartialEq, Eq)]
pub enum Event {
    /// The WebSocket is established.
    Established,
    /// The provider answered the creation, with this handle.
    Created(WardenclyffeSocket),
    /// The endpoint's capability flags.
    Capabilities { read: bool, write: bool },
    /// The client sent a message with this payload.
    Message(Vec<u8>),
    /// The client's message stream ended or failed.
    ClientGone,
    /// A write returned; `true` is success.
    WriteDone(bool),
    /// A read returned this batch.
    ReadDone(WardenclyffeReads),
    /// A text or binary message was sent; `true` is success.
    SendDone(bool),
}

/// The mathematical content of an [`Event`].
pub ghost enum EventView {
    Established,
    Created(WardenclyffeSocket),
    Capabilities { read: bool, write: bool },
    Message(Seq<u8>),
    ClientGone,
    WriteDone(bool),
    ReadDone(ReadsView),
    SendDone(bool),
}

impl View for Event {
    type V = EventView;

    open spec fn view(&self) -> EventView {
        match self {
            Event::Established => EventView::Established,
            Event::Created(socket) => EventView::Created(*socket),
            Event::Capabilities { read, write } => EventView::Capabilities {
                read: *read,
                write: *write,
            },
            Event::Message(payload) => EventView::Message(payload@),
            Event::ClientGone => EventView::ClientGone,
            Event::WriteDone(ok) => EventView::WriteDone(*ok),
            Event::ReadDone(batch) => EventView::ReadDone(batch@),
            Event::SendDone(ok) => EventView::SendDone(*ok),
        }
    }
}

/// What the bridge asks its driver to do. `Create`, `Probe`, `Read` and `Write`
/// are answered with the events `Created`, `Capabilities`, `ReadDone` and
/// `WriteDone`; sending a text or binary frame is answered with `SendDone`.
/// The result of sending a `Close` frame is not reported, and neither is
/// `Destroy`.
#[derive(Clone, Debug, PartialEq, Eq)]
pub enum Action {
    /// Create the endpoint for this path.
    Create(Vec<u8>),
    /// Ask the endpoint whether it supports reads and writes.
    Probe(WardenclyffeSocket),
    /// Start one blocking batched read.
    Read(WardenclyffeSocket),
    /// Write these bytes with one call.
    Write(WardenclyffeSocket, Vec<u8>),
    /// Send this message to the client.
    Send(Frame),
    /// Destroy the endpoint.
    Destroy(WardenclyffeSocket),
}

/// The mathematical content of an [`Action`].
pub ghost enum ActionView {
    Create(Seq<u8>),
    Probe(WardenclyffeSocket),
    Read(WardenclyffeSocket),
    Write(WardenclyffeSocket, Seq<u8>),
    Send(FrameView),
    Destroy(WardenclyffeSocket),
}

impl View for Action {
    type V = ActionView;

    open spec fn view(&self) -> ActionView {
        match self {
            Action::Create(path) => ActionView::Create(path@),
            Action::Probe(socket) => ActionView::Probe(*socket),
            Action::Read(socket) => ActionView::Read(*socket),
            Action::Write(socket, data) => ActionView::Write(*socket, data@),
            Action::Send(frame) => ActionView::Send(frame@),
            Action::Destroy(socket) => ActionView::Destroy(*socket),
        }
    }
}

/// The views of a run of actions, in order.
pub open spec fn actions_view(actions: Seq<Action>) -> Seq<ActionView> {
    Seq::new(actions.len(), |i: int| actions[i]@)
}

/// The state of one bridge.
pub struct Bridge {
    path: Vec<u8>,
    phase: Phase,
    socket: WardenclyffeSocket,
    supports_read: bool,
    supports_write: bool,
    outbound: Outbound,
    pending: Vec<WardenclyffeRead>,
}

/// The mathematical content of a [`Bridge`].
pub ghost struct BridgeView {
    /// The request path that names the endpoint.
    pub path: Seq<u8>,
    pub phase: Phase,
    /// The endpoint's handle; null until the provider has answered.
    pub socket: WardenclyffeSocket,
    pub supports_read: bool,
    pub supports_write: bool,
    pub outbound: Outbound,
    /// The reads of the current batch that are still to be forwarded.
    pub pending: Seq<ReadView>,
}

impl View for Bridge {
    type V = BridgeView;

    closed spec fn view(&self) -> BridgeView {
        BridgeView {
            path: self.path@,
            phase: self.phase,
            socket: self.socket,
            supports_read: self.supports_read,
            supports_write: self.supports_write,
            outbound: self.outbound,
            pending: reads_view(self.pending@),
        }
    }
}

/// A bridge and the actions it asks for.
pub ghost struct StepView {
    pub next: BridgeView,
    pub actions: Seq<ActionView>,
}

impl BridgeView {
    /// The bridge for `path` before anything has happened.
    pub open spec fn fresh(path: Seq<u8>) -> BridgeView {
        BridgeView {
            path,
            phase: Phase::Idle,
            socket: WardenclyffeSocket(0),
            supports_read: false,
            supports_write: false,
            outbound: Outbound::Idle,
            pending: Seq::empty(),
        }
    }

    /// Whether the bridge holds an endpoint that is alive.
    pub open spec fn holds_endpoint(self) -> bool {
        self.phase == Phase::Probing || self.phase == Phase::Running
    }

    /// What holds of every bridge: an endpoint that is alive is not the null
    /// handle; the outbound pump is at work only while the bridge runs on an
    /// endpoint that can be read; and reads wait to be forwarded only while
    /// one of their batch is being sent.
    pub open spec fn wf(self) -> bool {
        &&& self.holds_endpoint() ==> !self.socket.is_null()
        &&& self.outbound != Outbound::Idle ==> self.phase == Phase::Running
            && self.supports_read
        &&& self.outbound != Outbound::Sending ==> self.pending.len() == 0
    }

    /// This bridge, ended for the given reason.
    pub open spec fn closed(self, why: Ending) -> BridgeView {
        BridgeView {
            phase: Phase::Closed(why),
            outbound: Outbound::Idle,
            pending: Seq::empty(),
            ..self
        }
    }

    /// This bridge unchanged, asking for nothing.
    pub open spec fn stay(self) -> StepView {
        StepView { next: self, actions: Seq::empty() }
    }

    /// This bridge ended for the given reason, after the given last actions.
    pub open spec fn finish(self, why: Ending, actions: Seq<ActionView>) -> StepView {
        StepView { next: self.closed(why), actions }
    }

    /// What the establishment of the WebSocket leads to: the creation of the
    /// endpoint, unless the path holds a zero byte.
    pub open spec fn on_established(self) -> StepView {
        if self.path.contains(0u8) {
            self.finish(Ending::InvalidPath, Seq::empty())
        } else {
            StepView {
                next: BridgeView { phase: Phase::Creating, ..self },
                actions: seq![ActionView::Create(self.path)],
            }
        }
    }

    /// What the provider's answer leads to: with the null handle the bridge
    /// ends at once; with any other the capabilities are asked for.
    pub open spec fn on_created(self, socket: WardenclyffeSocket) -> StepView {
        if socket.is_null() {
            self.finish(Ending::CreateFailed, Seq::empty())
        } else {
            StepView {
                next: BridgeView { phase: Phase::Probing, socket, ..self },
                actions: seq![ActionView::Probe(socket)],
            }
        }
    }

    /// The pumps start: the first read is asked for if the endpoint can be
    /// read, and nothing otherwise.
    pub open spec fn on_capabilities(self, read: bool, write: bool) -> StepView {
        StepView {
            next: BridgeView {
                phase: Phase::Running,
                supports_read: read,
                supports_write: write,
                outbound: if read {
                    Outbound::Reading
                } else {
                    Outbound::Idle
                },
                ..self
            },
            actions: if read {
                seq![ActionView::Read(self.socket)]
            } else {
                Seq::empty()
            },
        }
    }

    /// A client message is written with one call where the endpoint supports
    /// writes, and dropped where it does not.
    pub open spec fn on_message(self, payload: Seq<u8>) -> StepView {
        if self.supports_write {
            StepView { next: self, actions: seq![ActionView::Write(self.socket, payload)] }
        } else {
            self.stay()
        }
    }

    /// A failed write ends the bridge.
    pub open spec fn on_write_done(self, ok: bool) -> StepView {
        if self.supports_write && !ok {
            self.finish(Ending::WriteFailed, seq![ActionView::Destroy(self.socket)])
        } else {
            self.stay()
        }
    }

    /// The end of the client's stream ends the bridge.
    pub open spec fn on_client_gone(self) -> StepView {
        self.finish(Ending::ClientGone, seq![ActionView::Destroy(self.socket)])
    }

    /// The next step of the outbound pump when `reads` are still to be
    /// forwarded: send the first, or read again when there is none.
    pub open spec fn forward(self, reads: Seq<ReadView>) -> StepView {
        if reads.len() == 0 {
            StepView {
                next: BridgeView { outbound: Outbound::Reading, pending: Seq::empty(), ..self },
                actions: seq![ActionView::Read(self.socket)],
            }
        } else {
            StepView {
                next: BridgeView {
                    outbound: Outbound::Sending,
                    pending: reads.drop_first(),
                    ..self
                },
                actions: seq![ActionView::Send(frame_of(reads[0]))],
            }
        }
    }

    /// What a batch leads to while the outbound pump waits for one: a failed
    /// read and the end of the data each send one `Close` frame and end the
    /// bridge; data is forwarded read by read.
    pub open spec fn on_read_done(self, batch: ReadsView) -> StepView {
        if self.outbound != Outbound::Reading {
            self.stay()
        } else {
            match batch.status() {
                ReadStatus::Failed => self.finish(
                    Ending::ReadFailed,
                    seq![
                        ActionView::Send(FrameView::Close(CloseCode::Error)),
                        ActionView::Destroy(self.socket),
                    ],
                ),
                ReadStatus::Eof => self.finish(
                    Ending::Eof,
                    seq![
                        ActionView::Send(FrameView::Close(CloseCode::Normal)),
                        ActionView::Destroy(self.socket),
                    ],
                ),
                ReadStatus::Data => self.forward(batch.reads),
            }
        }
    }

    /// What the result of a send leads to while the outbound pump waits for
    /// one: a failure ends the bridge, a success moves on to the next read of
    /// the batch.
    pub open spec fn on_send_done(self, ok: bool) -> StepView {
        if self.outbound != Outbound::Sending {
            self.stay()
        } else if !ok {
            self.finish(Ending::SendFailed, seq![ActionView::Destroy(self.socket)])
        } else {
            self.forward(self.pending)
        }
    }

    /// The bridge's reaction to one event. An event that the current phase
    /// does not wait for changes nothing and asks for nothing.
    pub open spec fn step(self, event: EventView) -> StepView {
        match (self.phase, event) {
            (Phase::Idle, EventView::Established) => self.on_established(),
            (Phase::Creating, EventView::Created(socket)) => self.on_created(socket),
            (Phase::Probing, EventView::Capabilities { read, write }) => self.on_capabilities(
                read,
                write,
            ),
            (Phase::Running, EventView::Message(payload)) => self.on_message(payload),
            (Phase::Running, EventView::WriteDone(ok)) => self.on_write_done(ok),
            (Phase::Running, EventView::ClientGone) => self.on_client_gone(),
            (Phase::Running, EventView::ReadDone(batch)) => self.on_read_done(batch),
            (Phase::Running, EventView::SendDone(ok)) => self.on_send_done(ok),
            _ => self.stay(),
        }
    }
}

/// No event takes a bridge out of the states that [`BridgeView::wf`] allows.
pub proof fn lemma_step_keeps_wf(bridge: BridgeView, event: EventView)
    requires
        bridge.wf(),
    ensures
        bridge.step(event).next.wf(),
{
}

/// Whether `bytes` holds a zero byte.
fn holds_zero(bytes: &Vec<u8>) -> (found: bool)
    ensures
        found == bytes@.contains(0u8),
{
    let mut i: usize = 0;
    while i < bytes.len()
        invariant
            i <= bytes.len(),
            forall|k: int| 0 <= k < i ==> bytes@[k] != 0u8,
        decreases bytes.len() - i,
    {
        if bytes[i] == 0 {
            return true;
        }
        i += 1;
    }
    false
}

impl Bridge {
    /// The bridge for the endpoint that `path` names, before anything has
    /// happened.
    pub fn new(path: Vec<u8>) -> (bridge: Bridge)
        ensures
            bridge@ == BridgeView::fresh(path@),
            bridge@.wf(),
    {
        let bridge = Bridge {
            path,
            phase: Phase::Idle,
            socket: WardenclyffeSocket(0),
            supports_read: false,
            supports_write: false,
            outbound: Outbound::Idle,
            pending: Vec::new(),
        };
        assert(bridge@.pending =~= Seq::empty());
        bridge
    }

    /// The bridge for the connection that `req` has upgraded: its endpoint is
    /// the one that the request's path names.
    pub fn for_request(req: &Request) -> (bridge: Bridge)
        ensures
            bridge@ == BridgeView::fresh(req@.path),
            bridge@.wf(),
    {
        Bridge::new(req.path.clone())
    }

    /// The request path that names the endpoint.
    pub fn path(&self) -> (path: &Vec<u8>)
        ensures
            path@ == self@.path,
    {
        &self.path
    }

    /// Where the bridge stands in its life.
    pub fn phase(&self) -> (phase: Phase)
        ensures
            phase == self@.phase,
    {
        self.phase
    }

    /// Why the bridge ended, once it has.
    pub fn ending(&self) -> (ending: Option<Ending>)
        ensures
            ending == match self@.phase {
                Phase::Closed(why) => Some(why),
                _ => None::<Ending>,
            },
    {
        match self.phase {
            Phase::Closed(why) => Some(why),
            _ => None,
        }
    }

    /// The endpoint's handle; null until the provider has answered.
    pub fn socket(&self) -> (socket: WardenclyffeSocket)
        ensures
            socket == self@.socket,
    {
        self.socket
    }

    /// Whether the endpoint can be read, as far as the bridge has been told.
    pub fn supports_read(&self) -> (flag: bool)
        ensures
            flag == self@.supports_read,
    {
        self.supports_read
    }

    /// Whether the endpoint can be written to, as far as the bridge has been
    /// told.
    pub fn supports_write(&self) -> (flag: bool)
        ensures
            flag == self@.supports_write,
    {
        self.supports_write
    }

    /// The number of reads of the current batch that are still to be
    /// forwarded.
    pub fn pending(&self) -> (count: usize)
        ensures
            count == self@.pending.len(),
    {
        self.pending.len()
    }

    fn close(&mut self, why: Ending)
        ensures
            final(self)@ == old(self)@.closed(why),
    {
        self.phase = Phase::Closed(why);
        self.outbound = Outbound::Idle;
        self.pending = Vec::new();
        assert(self@.pending =~= Seq::empty());
    }

    /// Ends the bridge and asks for the endpoint's destruction, after
    /// `before`.
    fn release(&mut self, why: Ending, before: Option<Frame>) -> (actions: Vec<Action>)
        ensures
            final(self)@ == old(self)@.closed(why),
            actions_view(actions@) == match before {
                Some(frame) => seq![
                    ActionView::Send(frame@),
                    ActionView::Destroy(old(self)@.socket),
                ],
                None => seq![ActionView::Destroy(old(self)@.socket)],
            },
    {
        let socket = self.socket;
        self.close(why);
        let mut actions: Vec<Action> = Vec::new();
        match before {
            Some(frame) => {
                actions.push(Action::Send(frame));
                actions.push(Action::Destroy(socket));
                assert(actions_view(actions@) =~= seq![
                    ActionView::Send(frame@),
                    ActionView::Destroy(socket),
                ]);
            },
            None => {
                actions.push(Action::Destroy(socket));
                assert(actions_view(actions@) =~= seq![ActionView::Destroy(socket)]);
            },
        }
        actions
    }

    /// The outbound pump's next step over the reads it still holds.
    fn forward(&mut self) -> (actions: Vec<Action>)
        ensures
            final(self)@ == old(self)@.forward(old(self)@.pending).next,
            actions_view(actions@) == old(self)@.forward(old(self)@.pending).actions,
    {
        let mut actions: Vec<Action> = Vec::new();
        if self.pending.len() == 0 {
            self.outbound = Outbound::Reading;
            actions.push(Action::Read(self.socket));
            assert(self@.pending =~= Seq::empty());
            assert(actions_view(actions@) =~= seq![ActionView::Read(self.socket)]);
        } else {
            let ghost reads = reads_view(self.pending@);
            let first = self.pending.remove(0);
            assert(reads_view(self.pending@) =~= reads.drop_first());
            assert(first@ == reads[0]);
            self.outbound = Outbound::Sending;
            let frame = if first.oob != 0 {
                Frame::Text(first.data)
            } else {
                Frame::Binary(first.data)
            };
            assert(frame@ == frame_of(reads[0]));
            actions.push(Action::Send(frame));
            assert(actions_view(actions@) =~= seq![ActionView::Send(frame_of(reads[0]))]);
        }
        actions
    }

    /// Reacts to one event: moves the bridge on and returns, in the order in
    /// which they are to be performed, the actions that it now asks for.
    pub fn step(&mut self, event: Event) -> (actions: Vec<Action>)
        ensures
            final(self)@ == old(self)@.step(event@).next,
            actions_view(actions@) == old(self)@.step(event@).actions,
            actions@.len() == old(self)@.step(event@).actions.len(),
            old(self)@.wf() ==> final(self)@.wf(),
    {
        proof {
            if old(self)@.wf() {
                lemma_step_keeps_wf(old(self)@, event@);
            }
        }
        let mut actions: Vec<Action> = Vec::new();
        assert(actions_view(actions@) =~= Seq::empty());
        match self.phase {
            Phase::Idle => match event {
                Event::Established => {
                    if holds_zero(&self.path) {
                        self.close(Ending::InvalidPath);
                    } else {
                        self.phase = Phase::Creating;
                        let path = self.path.clone();
                        assert(path@ =~= self.path@);
                        actions.push(Action::Create(path));
                        assert(actions_view(actions@) =~= seq![ActionView::Create(self.path@)]);
                    }
                },
                _ => {},
            },
            Phase::Creating => match event {
                Event::Created(socket) => {
                    if socket.is_null() {
                        self.close(Ending::CreateFailed);
                    } else {
                        self.phase = Phase::Probing;
                        self.socket = socket;
                        actions.push(Action::Probe(socket));
                        assert(actions_view(actions@) =~= seq![ActionView::Probe(socket)]);
                    }
                },
                _ => {},
            },
            Phase::Probing => match event {
                Event::Capabilities { read, write } => {
                    self.phase = Phase::Running;
                    self.supports_read = read;
                    self.supports_write = write;
                    if read {
                        self.outbound = Outbound::Reading;
                        actions.push(Action::Read(self.socket));
                        assert(actions_view(actions@) =~= seq![ActionView::Read(self.socket)]);
                    } else {
                        self.outbound = Outbound::Idle;
                    }
                },
                _ => {},
            },
            Phase::Running => match event {
                Event::Message(payload) => {
                    if self.supports_write {
                        actions.push(Action::Write(self.socket, payload));
                        assert(actions_view(actions@) =~= seq![
                            ActionView::Write(self.socket, payload@),
                        ]);
                    }
                },
                Event::WriteDone(ok) => {
                    if self.supports_write && !ok {
                        actions = self.release(Ending::WriteFailed, None);
                    }
                },
                Event::ClientGone => {
                    actions = self.release(Ending::ClientGone, None);
                },
                Event::ReadDone(batch) => {
                    if self.outbound == Outbound::Reading {
                        match batch.status() {
                            ReadStatus::Failed => {
                                actions = self.release(
                                    Ending::ReadFailed,
                                    Some(Frame::Close(CloseCode::Error)),
                                );
                            },
                            ReadStatus::Eof => {
                                actions = self.release(
                                    Ending::Eof,
                                    Some(Frame::Close(CloseCode::Normal)),
                                );
                            },
                            ReadStatus::Data => {
                                self.pending = batch.reads;
                                actions = self.forward();
                            },
                        }
                    }
                },
                Event::SendDone(ok) => {
                    if self.outbound == Outbound::Sending {
                        if ok {
                            actions = self.forward();
                        } else {
                            actions = self.release(Ending::SendFailed, None);
                        }
                    }
                },
                _ => {},
            },
            Phase::Closed(_) => {},
        }
        assert(actions@.len() == actions_view(actions@).len());
        actions
    }
}

} // verus!
