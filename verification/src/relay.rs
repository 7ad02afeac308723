use vstd::prelude::*;

use crate::downstream;
use crate::downstream::{CommandResponse, CommandResponseView};
use crate::error::ErrorKind;
use crate::upstream::{
    lemma_handshake_exact, lemma_request_exact, CommandRequest, CommandRequestView, Decoded,
    Handshake, Parse,
};
use crate::{Addr, AddrView, Command, Method, Reply};

verus! {

/// Where a connection goes: an IP address and a port.
#[derive(Clone, Copy, PartialEq, Eq, Debug)]
pub enum Endpoint {
    /// An IPv4 address, as its four octets, and a port.
    V4([u8; 4], u16),
    /// An IPv6 address, as its sixteen octets, and a port.
    V6([u8; 16], u16),
}

/// An endpoint as contracts see it.
pub enum EndpointView {
    /// An IPv4 address: four octets, and a port.
    V4(Seq<u8>, u16),
    /// An IPv6 address: sixteen octets, and a port.
    V6(Seq<u8>, u16),
}

impl View for Endpoint {
    type V = EndpointView;

    open spec fn view(&self) -> EndpointView {
        match *self {
            Endpoint::V4(octets, port) => EndpointView::V4(octets@, port),
            Endpoint::V6(octets, port) => EndpointView::V6(octets@, port),
        }
    }
}

/// Why a connection ended before a command was tried.
#[derive(Clone, Copy, PartialEq, Eq, Debug, Structural)]
pub enum Fault {
    /// The client sent what is no message.
    Protocol(ErrorKind),
    /// Reading, writing or resolving failed, or the driver answered with
    /// something that was not asked for.
    Transport,
    /// The domain name resolved to no address.
    NoAddress,
}

/// The state of one connection.
#[derive(Clone, Copy, PartialEq, Eq, Debug, Structural)]
pub enum State {
    /// The client's handshake is being read.
    AwaitHandshake,
    /// "No authentication" was chosen; the client's command request is being
    /// read.
    MethodAccepted,
    /// The requested domain name is being resolved.
    Resolving,
    /// The connection to the target is being opened.
    Connecting,
    /// Bytes are copied between the client and the target, both ways.
    Relaying,
    /// The relay ran and ended.
    Closed,
    /// The client offered no method that the server accepts.
    Rejected,
    /// The client asked for a command other than connect.
    Unsupported,
    /// The connection to the target could not be opened.
    ConnectFailed,
    /// The connection ended early for another reason.
    Failed(Fault),
}

impl State {
    /// A state from which nothing more happens.
    pub open spec fn terminal(self) -> bool {
        match self {
            State::AwaitHandshake
            | State::MethodAccepted
            | State::Resolving
            | State::Connecting
            | State::Relaying => false,
            _ => true,
        }
    }
}

/// What the driver reports back to the relay.
#[derive(Debug)]
pub enum Event {
    /// The bytes that were read from the client: as many as were asked for.
    Received(Vec<u8>),
    /// The endpoints that the domain name resolved to, in the resolver's
    /// order.
    Resolved(Vec<Endpoint>),
    /// The connection to the target is open.
    Connected,
    /// The copying between client and target came to its end.
    Finished,
    /// What was asked for could not be done.
    Failed,
}

/// What the driver is to do once it has sent an action's bytes.
#[derive(PartialEq, Eq, Debug)]
pub enum Next {
    /// Read exactly so many bytes from the client and report them.
    Read(usize),
    /// Resolve the domain name and port to endpoints and report them.
    Resolve(String, u16),
    /// Open a connection to the endpoint and report how that went.
    Connect(Endpoint),
    /// Copy bytes between the client and the target, both ways, until either
    /// side ends or fails, and report that.
    Relay,
    /// Close what is open. The connection is over.
    Close,
}

/// What the relay asks of the driver: bytes to send to the client, which may
/// be none, and what to do next.
#[derive(PartialEq, Eq, Debug)]
pub struct Action {
    /// The bytes to send to the client first.
    pub send: Vec<u8>,
    /// What to do when they are sent.
    pub next: Next,
}

/// The second half of an action as contracts see it.
pub enum NextView {
    /// Read so many bytes from the client.
    Read(nat),
    /// Resolve the domain name and port.
    Resolve(Seq<char>, u16),
    /// Connect to the endpoint.
    Connect(EndpointView),
    /// Copy bytes both ways.
    Relay,
    /// Close what is open.
    Close,
}

/// An action as contracts see it.
pub struct ActionView {
    /// The bytes to send to the client first.
    pub send: Seq<u8>,
    /// What to do when they are sent.
    pub next: NextView,
}

impl View for Next {
    type V = NextView;

    open spec fn view(&self) -> NextView {
        match *self {
            Next::Read(n) => NextView::Read(n as nat),
            Next::Resolve(name, port) => NextView::Resolve(name@, port),
            Next::Connect(endpoint) => NextView::Connect(endpoint@),
            Next::Relay => NextView::Relay,
            Next::Close => NextView::Close,
        }
    }
}

impl View for Action {
    type V = ActionView;

    open spec fn view(&self) -> ActionView {
        ActionView { send: self.send@, next: self.next@ }
    }
}

/// A relay as contracts see it: its state, and the bytes of the message that
/// is being read.
pub struct RelayView {
    /// The state that the connection is in.
    pub state: State,
    /// The bytes of the message being read that have arrived.
    pub pending: Seq<u8>,
}

impl RelayView {
    /// While a message is being read, the bytes so far are not yet a whole
    /// message nor a failure; at any other time there are none.
    pub open spec fn well_formed(self) -> bool {
        match self.state {
            State::AwaitHandshake => Handshake::parse(self.pending) is Need,
            State::MethodAccepted => CommandRequest::parse(self.pending) is Need,
            _ => self.pending.len() == 0,
        }
    }

    /// A relay in `state` that is reading nothing.
    pub open spec fn idle(state: State) -> RelayView {
        RelayView { state, pending: Seq::empty() }
    }
}

impl ActionView {
    /// Nothing to send, and `next` to do.
    pub open spec fn only(next: NextView) -> ActionView {
        ActionView { send: Seq::empty(), next }
    }
}

/// The bytes that an event brings, if it brings any.
pub open spec fn received(event: Event) -> Option<Seq<u8>> {
    match event {
        Event::Received(bytes) => Some(bytes@),
        _ => None,
    }
}

/// The connection ends in `state` with nothing more said to the client.
pub open spec fn ends(state: State) -> (RelayView, ActionView) {
    (RelayView::idle(state), ActionView::only(NextView::Close))
}

/// What follows a handshake that offers `methods`. If "no authentication" is
/// among them it is chosen, and the command request is read from its first
/// byte. If not, the client is told that no method is acceptable, and the
/// connection ends.
pub open spec fn after_handshake(methods: Seq<Method>) -> (RelayView, ActionView) {
    if methods.contains(Method::NoAuth) {
        (
            RelayView::idle(State::MethodAccepted),
            ActionView {
                send: downstream::Handshake(Method::NoAuth).wire(),
                next: NextView::Read(1),
            },
        )
    } else {
        (
            RelayView::idle(State::Rejected),
            ActionView {
                send: downstream::Handshake(Method::NoAcceptable).wire(),
                next: NextView::Close,
            },
        )
    }
}

/// What follows a command request. Any command but connect ends the
/// connection, with no reply. An IP address is connected to; a domain name is
/// resolved first.
pub open spec fn after_request(request: CommandRequestView) -> (RelayView, ActionView) {
    if request.cmd != Command::Connect {
        ends(State::Unsupported)
    } else {
        match request.addr {
            AddrView::V4(octets) => (
                RelayView::idle(State::Connecting),
                ActionView::only(NextView::Connect(EndpointView::V4(octets, request.port))),
            ),
            AddrView::V6(octets) => (
                RelayView::idle(State::Connecting),
                ActionView::only(NextView::Connect(EndpointView::V6(octets, request.port))),
            ),
            AddrView::Domain(name) => (
                RelayView::idle(State::Resolving),
                ActionView::only(NextView::Resolve(name, request.port)),
            ),
        }
    }
}

/// The response that tells the client that the target is connected. The
/// bound address that it reports is always 0.0.0.0, port 0.
pub open spec fn connected_response() -> CommandResponseView {
    CommandResponseView {
        reply: Reply::Success,
        addr: AddrView::V4(seq![0x00u8, 0x00u8, 0x00u8, 0x00u8]),
        port: 0,
    }
}

/// What follows from `all`, the bytes of the handshake that have been read.
pub open spec fn on_handshake(all: Seq<u8>) -> (RelayView, ActionView) {
    match Handshake::parse(all) {
        Parse::Need(more) => (
            RelayView { state: State::AwaitHandshake, pending: all },
            ActionView::only(NextView::Read(more)),
        ),
        Parse::Fail(kind, _) => ends(State::Failed(Fault::Protocol(kind))),
        Parse::Done(methods, _) => after_handshake(methods),
    }
}

/// What follows from `all`, the bytes of the command request that have been
/// read.
pub open spec fn on_request(all: Seq<u8>) -> (RelayView, ActionView) {
    match CommandRequest::parse(all) {
        Parse::Need(more) => (
            RelayView { state: State::MethodAccepted, pending: all },
            ActionView::only(NextView::Read(more)),
        ),
        Parse::Fail(kind, _) => ends(State::Failed(Fault::Protocol(kind))),
        Parse::Done(request, _) => after_request(request),
    }
}

/// What follows from the resolver's answer: the first candidate is connected
/// to, and where there is none the connection ends.
pub open spec fn on_resolved(candidates: Seq<Endpoint>) -> (RelayView, ActionView) {
    if candidates.len() == 0 {
        ends(State::Failed(Fault::NoAddress))
    } else {
        (
            RelayView::idle(State::Connecting),
            ActionView::only(NextView::Connect(candidates[0]@)),
        )
    }
}

/// What follows once the target is connected: the client is told so, and the
/// relaying begins.
pub open spec fn on_connected() -> (RelayView, ActionView) {
    (
        RelayView::idle(State::Relaying),
        ActionView { send: connected_response().wire(), next: NextView::Relay },
    )
}

/// The step that a relay takes on an event: the relay after it, and what it
/// asks of the driver.
///
/// While a message is read, the event that is waited for brings exactly the
/// bytes that were asked for. An event that is not the answer to what was
/// asked counts as the failure of what was asked.
pub open spec fn step_of(pre: RelayView, event: Event) -> (RelayView, ActionView) {
    match pre.state {
        State::AwaitHandshake => match received(event) {
            Some(bytes) if Handshake::parse(pre.pending) == Parse::<Seq<Method>>::Need(
                bytes.len(),
            ) => on_handshake(pre.pending + bytes),
            _ => ends(State::Failed(Fault::Transport)),
        },
        State::MethodAccepted => match received(event) {
            Some(bytes) if CommandRequest::parse(pre.pending) == Parse::<
                CommandRequestView,
            >::Need(bytes.len()) => on_request(pre.pending + bytes),
            _ => ends(State::Failed(Fault::Transport)),
        },
        State::Resolving => match event {
            Event::Resolved(candidates) => on_resolved(candidates@),
            _ => ends(State::Failed(Fault::Transport)),
        },
        State::Connecting => match event {
            Event::Connected => on_connected(),
            _ => ends(State::ConnectFailed),
        },
        State::Relaying => ends(State::Closed),
        _ => ends(pre.state),
    }
}

/// The relay of one connection: what it has come to, and what it is in the
/// middle of reading.
#[derive(Debug)]
pub struct Relay {
    state: State,
    pending: Vec<u8>,
    want: usize,
}

impl View for Relay {
    type V = RelayView;

    closed spec fn view(&self) -> RelayView {
        RelayView { state: self.state, pending: self.pending@ }
    }
}

/// Whether `wanted` is among `methods`.
fn offers(methods: &Vec<Method>, wanted: Method) -> (found: bool)
    ensures
        found == methods@.contains(wanted),
{
    let mut i: usize = 0;
    while i < methods.len()
        invariant
            i <= methods.len(),
            forall|j: int| 0 <= j < i ==> methods@[j] != wanted,
        decreases methods.len() - i,
    {
        if methods[i] == wanted {
            return true;
        }
        i += 1;
    }
    false
}

/// `head` followed by `tail`, in a vector of its own.
fn joined(head: &Vec<u8>, tail: &Vec<u8>) -> (all: Vec<u8>)
    ensures
        all@ == head@ + tail@,
{
    let mut all = Vec::new();
    let mut i: usize = 0;
    while i < head.len()
        invariant
            i <= head.len(),
            all@ == head@.subrange(0, i as int),
        decreases head.len() - i,
    {
        all.push(head[i]);
        i += 1;
    }
    let mut j: usize = 0;
    while j < tail.len()
        invariant
            j <= tail.len(),
            all@ == head@ + tail@.subrange(0, j as int),
        decreases tail.len() - j,
    {
        all.push(tail[j]);
        j += 1;
    }
    all
}

impl Relay {
    /// While a message is read, `want` is the number of bytes that were
    /// asked for, which is what the bytes so far still need.
    #[verifier::type_invariant]
    spec fn inv(self) -> bool {
        match self.state {
            State::AwaitHandshake => Handshake::parse(self.pending@) == Parse::<
                Seq<Method>,
            >::Need(self.want as nat),
            State::MethodAccepted => CommandRequest::parse(self.pending@) == Parse::<
                CommandRequestView,
            >::Need(self.want as nat),
            _ => self.pending@.len() == 0 && self.want == 0,
        }
    }

    /// A relay for a connection that was just accepted, and its first
    /// action: to read the first byte of the handshake.
    pub fn new() -> (start: (Relay, Action))
        ensures
            start.0@ == RelayView::idle(State::AwaitHandshake),
            start.0@.well_formed(),
            start.1@ == ActionView::only(NextView::Read(1)),
    {
        (
            Relay { state: State::AwaitHandshake, pending: Vec::new(), want: 1 },
            Action { send: Vec::new(), next: Next::Read(1) },
        )
    }

    /// The state that the connection is in.
    pub fn state(&self) -> (state: State)
        ensures
            state == self@.state,
    {
        self.state
    }

    /// A relay that is reading nothing.
    fn idle(state: State) -> (relay: Relay)
        requires
            state != State::AwaitHandshake,
            state != State::MethodAccepted,
        ensures
            relay@ == RelayView::idle(state),
    {
        Relay { state, pending: Vec::new(), want: 0 }
    }

    /// The connection ends in `state`.
    fn ended(state: State) -> (out: (Relay, Action))
        requires
            state.terminal(),
        ensures
            (out.0@, out.1@) == ends(state),
    {
        (Relay::idle(state), Action { send: Vec::new(), next: Next::Close })
    }

    /// The bytes of the message that is being read with those of `event`
    /// behind them, if `event` brings the bytes that were asked for.
    fn gathered(&self, event: Event) -> (all: Option<Vec<u8>>)
        ensures
            all is Some <==> (received(event) matches Some(bytes) && bytes.len() == self.want),
            all matches Some(all) ==> all@ == self.pending@ + received(event)->0,
    {
        match event {
            Event::Received(bytes) => {
                if bytes.len() == self.want {
                    Some(joined(&self.pending, &bytes))
                } else {
                    None
                }
            },
            _ => None,
        }
    }

    /// Decides on the bytes of the handshake that have been read.
    fn handshake(all: Vec<u8>) -> (out: (Relay, Action))
        ensures
            (out.0@, out.1@) == on_handshake(all@),
    {
        match Handshake::read(all.as_slice()) {
            Ok(Decoded::Need(more)) => (
                Relay { state: State::AwaitHandshake, pending: all, want: more },
                Action { send: Vec::new(), next: Next::Read(more) },
            ),
            Ok(Decoded::Done(handshake, _)) => {
                let mut send = Vec::new();
                if offers(&handshake.0, Method::NoAuth) {
                    let _ = downstream::Handshake(Method::NoAuth).write(&mut send);
                    (
                        Relay { state: State::MethodAccepted, pending: Vec::new(), want: 1 },
                        Action { send, next: Next::Read(1) },
                    )
                } else {
                    let _ = downstream::Handshake(Method::NoAcceptable).write(&mut send);
                    (Relay::idle(State::Rejected), Action { send, next: Next::Close })
                }
            },
            Err(err) => Relay::ended(State::Failed(Fault::Protocol(err.kind()))),
        }
    }

    /// Decides on the bytes of the command request that have been read.
    fn request(all: Vec<u8>) -> (out: (Relay, Action))
        ensures
            (out.0@, out.1@) == on_request(all@),
    {
        match CommandRequest::read(all.as_slice()) {
            Ok(Decoded::Need(more)) => (
                Relay { state: State::MethodAccepted, pending: all, want: more },
                Action { send: Vec::new(), next: Next::Read(more) },
            ),
            Ok(Decoded::Done(request, _)) => {
                if request.cmd != Command::Connect {
                    return Relay::ended(State::Unsupported);
                }
                let port = request.port;
                let (state, next) = match request.addr {
                    Addr::V4(octets) => (
                        State::Connecting,
                        Next::Connect(Endpoint::V4(octets, port)),
                    ),
                    Addr::V6(octets) => (
                        State::Connecting,
                        Next::Connect(Endpoint::V6(octets, port)),
                    ),
                    Addr::Domain(name) => (State::Resolving, Next::Resolve(name, port)),
                };
                (Relay::idle(state), Action { send: Vec::new(), next })
            },
            Err(err) => Relay::ended(State::Failed(Fault::Protocol(err.kind()))),
        }
    }

    /// Decides on the resolver's answer.
    fn resolved(candidates: Vec<Endpoint>) -> (out: (Relay, Action))
        ensures
            (out.0@, out.1@) == on_resolved(candidates@),
    {
        if candidates.len() == 0 {
            Relay::ended(State::Failed(Fault::NoAddress))
        } else {
            (
                Relay::idle(State::Connecting),
                Action { send: Vec::new(), next: Next::Connect(candidates[0]) },
            )
        }
    }

    /// Tells the client that the target is connected, and begins to relay.
    fn connected() -> (out: (Relay, Action))
        ensures
            (out.0@, out.1@) == on_connected(),
    {
        let response = CommandResponse {
            reply: Reply::Success,
            addr: Addr::V4([0x00u8; 4]),
            port: 0,
        };
        assert(response.addr@ == connected_response().addr) by {
            assert(response.addr@->V4_0 == seq![0x00u8, 0x00u8, 0x00u8, 0x00u8]);
        }
        let mut send = Vec::new();
        let _ = response.write(&mut send);
        (Relay::idle(State::Relaying), Action { send, next: Next::Relay })
    }

    /// Takes the step that `event` calls for, and says what the driver is to
    /// do next.
    pub fn step(&mut self, event: Event) -> (action: Action)
        ensures
            (final(self)@, action@) == step_of(old(self)@, event),
            final(self)@.well_formed(),
    {
        proof {
            use_type_invariant(&*self);
        }
        let (relay, action) = match self.state {
            State::AwaitHandshake => match self.gathered(event) {
                Some(all) => Relay::handshake(all),
                None => Relay::ended(State::Failed(Fault::Transport)),
            },
            State::MethodAccepted => match self.gathered(event) {
                Some(all) => Relay::request(all),
                None => Relay::ended(State::Failed(Fault::Transport)),
            },
            State::Resolving => match event {
                Event::Resolved(candidates) => Relay::resolved(candidates),
                _ => Relay::ended(State::Failed(Fault::Transport)),
            },
            State::Connecting => match event {
                Event::Connected => Relay::connected(),
                _ => Relay::ended(State::ConnectFailed),
            },
            State::Relaying => Relay::ended(State::Closed),
            state => Relay::ended(state),
        };
        proof {
            use_type_invariant(&relay);
        }
        *self = relay;
        action
    }
}

/// A step leaves a well-formed relay well-formed.
pub proof fn lemma_step_keeps_well_formed(pre: RelayView, event: Event)
    requires
        pre.well_formed(),
    ensures
        step_of(pre, event).0.well_formed(),
{
}

/// Once a connection has ended nothing more happens: whatever the event, the
/// relay stays as it is, sends nothing and asks for nothing but to close.
pub proof fn lemma_ended_is_final(pre: RelayView, event: Event)
    requires
        pre.well_formed(),
        pre.state.terminal(),
    ensures
        step_of(pre, event) == ends(pre.state),
        step_of(pre, event).0 == pre,
{
    assert(pre.pending == Seq::<u8>::empty());
}

/// A connection goes through its states in one order: the handshake is read,
/// then the command request, then the name is resolved where there is one,
/// then the target is connected to, then bytes are relayed. From each of
/// these it can only stay, go on, or end.
pub proof fn lemma_states_in_order(pre: RelayView, event: Event)
    requires
        pre.well_formed(),
    ensures
        ({
            let post = step_of(pre, event).0.state;
            match pre.state {
                State::AwaitHandshake => post == State::AwaitHandshake || post
                    == State::MethodAccepted || post == State::Rejected || post is Failed,
                State::MethodAccepted => post == State::MethodAccepted || post == State::Resolving
                    || post == State::Connecting || post == State::Unsupported || post is Failed,
                State::Resolving => post == State::Connecting || post is Failed,
                State::Connecting => post == State::Relaying || post == State::ConnectFailed,
                State::Relaying => post == State::Closed,
                ended => post == ended,
            }
        }),
{
}

/// The client is sent two things and no others: the answer to its handshake
/// when that has been read, and the response to its request when the target
/// is connected. A request that fails, is not supported or cannot be
/// connected gets no reply.
pub proof fn lemma_what_is_sent(pre: RelayView, event: Event)
    requires
        pre.well_formed(),
    ensures
        ({
            let (post, action) = step_of(pre, event);
            if pre.state == State::AwaitHandshake && post.state == State::MethodAccepted {
                action.send == downstream::Handshake(Method::NoAuth).wire()
            } else if pre.state == State::AwaitHandshake && post.state == State::Rejected {
                action.send == downstream::Handshake(Method::NoAcceptable).wire()
            } else if pre.state == State::Connecting && post.state == State::Relaying {
                action.send == connected_response().wire()
            } else {
                action.send.len() == 0
            }
        }),
{
}

/// Only the driver's answer to what was asked moves a connection forward:
/// any other event ends it.
pub proof fn lemma_progress_needs_its_answer(pre: RelayView, event: Event)
    requires
        pre.well_formed(),
        !step_of(pre, event).0.state.terminal(),
    ensures
        (match pre.state {
            State::AwaitHandshake => event is Received && Handshake::parse(pre.pending)
                == Parse::<Seq<Method>>::Need(event->Received_0@.len()),
            State::MethodAccepted => event is Received && CommandRequest::parse(pre.pending)
                == Parse::<CommandRequestView>::Need(event->Received_0@.len()),
            State::Resolving => event is Resolved,
            State::Connecting => event is Connected,
            _ => false,
        }),
{
}

/// A relay reads each message to its last byte and not beyond: when the
/// bytes that it asked for complete a message, or show that there is none,
/// that is settled by exactly the bytes that it has read.
pub proof fn lemma_reads_whole_messages(pre: RelayView, bytes: Seq<u8>)
    requires
        pre.well_formed(),
    ensures
        pre.state == State::AwaitHandshake && Handshake::parse(pre.pending) == Parse::<
            Seq<Method>,
        >::Need(bytes.len()) ==> (match Handshake::parse(pre.pending + bytes) {
            Parse::Done(_, taken) => taken == pre.pending.len() + bytes.len(),
            Parse::Fail(_, at) => at == pre.pending.len() + bytes.len(),
            Parse::Need(more) => more >= 1,
        }),
        pre.state == State::MethodAccepted && CommandRequest::parse(pre.pending) == Parse::<
            CommandRequestView,
        >::Need(bytes.len()) ==> (match CommandRequest::parse(pre.pending + bytes) {
            Parse::Done(_, taken) => taken == pre.pending.len() + bytes.len(),
            Parse::Fail(_, at) => at == pre.pending.len() + bytes.len(),
            Parse::Need(more) => more >= 1,
        }),
{
    let all = pre.pending + bytes;
    assert(all.take(pre.pending.len() as int) == pre.pending);
    lemma_handshake_exact(all, pre.pending.len() as int);
    lemma_request_exact(all, pre.pending.len() as int);
}

} // verus!
