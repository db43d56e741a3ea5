use vstd::prelude::*;

use crate::address::{
    first_resolved, spec_family, spec_first, spec_unspecified, AddressFamily, SocketAddress,
    TargetAddress,
};

verus! {

/// A command read from the client: exactly one per connection.
#[derive(Debug, PartialEq, Eq)]
pub enum Command {
    Connect(TargetAddress),
    Bind(TargetAddress),
    Associate(TargetAddress),
}

/// The status carried by the one reply frame sent to the client.
#[derive(Clone, Copy, Debug, PartialEq, Eq, Structural)]
pub enum ReplyCode {
    Succeeded,
    HostUnreachable,
    CommandNotSupported,
}

/// Why a connection ended in error. Every failure is scoped to its own connection.
#[derive(Clone, Copy, Debug, PartialEq, Eq, Structural)]
pub enum Failure {
    /// The authentication negotiation failed.
    Authenticate,
    /// The command frame could not be read.
    Command,
    /// Looking up the target's domain name failed.
    Resolve,
    /// Looking up the target's domain name returned no address.
    NoAddress,
    /// The outbound socket could not be created or bound to the interface.
    InterfaceBind,
    /// Sending the reply frame failed.
    Reply,
    /// An I/O error ended the relay.
    Relay,
    /// Shutting down one of the connections failed.
    Shutdown,
    /// An event arrived that does not answer the last action.
    OutOfOrder,
}

/// What the driver of a session observed after carrying out the last action.
#[derive(Debug, PartialEq, Eq)]
pub enum Event {
    Authenticated,
    AuthenticateFailed,
    CommandRead(Command),
    CommandFailed,
    /// The addresses that a domain lookup returned, in order.
    Resolved(Vec<SocketAddress>),
    ResolveFailed,
    /// The outbound socket could not be created or bound to the interface.
    SetupFailed,
    /// The outbound connection is up; the address it is bound to locally.
    Connected(SocketAddress),
    ConnectFailed,
    Replied,
    ReplyFailed,
    /// The relay ended: `true` at end of stream, `false` on an I/O error.
    RelayEnded(bool),
    /// A shutdown finished: `true` when it succeeded.
    ShutdownDone(bool),
}

/// What the driver of a session is to do next.
#[derive(Debug, PartialEq, Eq)]
pub enum Action {
    /// Run the no-authentication negotiation with the client.
    Authenticate,
    /// Read the command frame.
    ReadCommand,
    /// Look up a domain name with the system resolver.
    Resolve(Vec<u8>, u16),
    /// Open a socket of the given family, bind it to the named interface, and connect it.
    Connect { target: SocketAddress, family: AddressFamily, interface: String },
    /// Send the reply frame.
    Reply(ReplyCode, SocketAddress),
    /// Copy bytes both ways between client and target until one side ends.
    Relay,
    /// Shut down the client-facing connection.
    ShutdownClient,
    /// Shut down the target connection.
    ShutdownTarget,
    /// The session is over; the first failure met, if any.
    Finish(Option<Failure>),
}

/// Where a session stands: each phase waits for the event that answers its action.
#[derive(Clone, Copy, Debug, PartialEq, Eq, Structural)]
pub enum Phase {
    Authenticating,
    AwaitingCommand,
    Resolving,
    Connecting,
    Replying(ReplyCode),
    Relaying,
    Closing,
    Done,
}

/// The state of one client connection, from authentication to the end.
#[derive(Debug, PartialEq, Eq)]
pub struct Session {
    pub phase: Phase,
    /// The interface that outbound connections are bound to.
    pub interface: String,
    /// Whether the client-facing connection still has to be shut down.
    pub client_open: bool,
    /// Whether the target connection still has to be shut down.
    pub target_open: bool,
    /// The first failure met so far.
    pub failure: Option<Failure>,
}

pub open spec fn initial(interface: String) -> Session {
    Session {
        phase: Phase::Authenticating,
        interface,
        client_open: true,
        target_open: false,
        failure: None,
    }
}

/// Holds of every state that a session reaches: once done, no connection is left open.
pub open spec fn inv(s: Session) -> bool {
    s.phase is Done ==> !s.client_open && !s.target_open
}

/// Keeps the first failure met.
pub open spec fn record(failure: Option<Failure>, f: Failure) -> Option<Failure> {
    if failure is Some {
        failure
    } else {
        Some(f)
    }
}

/// Shuts down whatever is still open, the client first, then finishes.
pub open spec fn close_next(s: Session) -> (Session, Action) {
    if s.client_open {
        (Session { phase: Phase::Closing, client_open: false, ..s }, Action::ShutdownClient)
    } else if s.target_open {
        (Session { phase: Phase::Closing, target_open: false, ..s }, Action::ShutdownTarget)
    } else {
        (Session { phase: Phase::Done, ..s }, Action::Finish(s.failure))
    }
}

pub open spec fn fail(s: Session, f: Failure) -> (Session, Action) {
    close_next(Session { failure: record(s.failure, f), ..s })
}

pub open spec fn connect_to(s: Session, target: SocketAddress) -> (Session, Action) {
    (
        Session { phase: Phase::Connecting, ..s },
        Action::Connect { target, family: spec_family(target), interface: s.interface },
    )
}

/// The next state and action of a session in state `s` on event `e`.
///
/// Every failure closes what is open and finishes with the first failure
/// met. A failed or empty lookup of the target's domain name closes the
/// client connection without a reply frame: no target was ever chosen, so
/// there is no outcome to report.
pub open spec fn transition(s: Session, e: Event) -> (Session, Action) {
    match s.phase {
        Phase::Authenticating => match e {
            Event::Authenticated => (
                Session { phase: Phase::AwaitingCommand, ..s },
                Action::ReadCommand,
            ),
            Event::AuthenticateFailed => fail(s, Failure::Authenticate),
            _ => fail(s, Failure::OutOfOrder),
        },
        Phase::AwaitingCommand => match e {
            Event::CommandRead(Command::Connect(TargetAddress::Socket(a))) => connect_to(s, a),
            Event::CommandRead(Command::Connect(TargetAddress::Domain(name, port))) => (
                Session { phase: Phase::Resolving, ..s },
                Action::Resolve(name, port),
            ),
            Event::CommandRead(_) => (
                Session { phase: Phase::Replying(ReplyCode::CommandNotSupported), ..s },
                Action::Reply(ReplyCode::CommandNotSupported, spec_unspecified()),
            ),
            Event::CommandFailed => fail(s, Failure::Command),
            _ => fail(s, Failure::OutOfOrder),
        },
        Phase::Resolving => match e {
            Event::Resolved(addrs) => match spec_first(addrs@) {
                Some(a) => connect_to(s, a),
                None => fail(s, Failure::NoAddress),
            },
            Event::ResolveFailed => fail(s, Failure::Resolve),
            _ => fail(s, Failure::OutOfOrder),
        },
        Phase::Connecting => match e {
            Event::Connected(local) => (
                Session {
                    phase: Phase::Replying(ReplyCode::Succeeded),
                    target_open: true,
                    ..s
                },
                Action::Reply(ReplyCode::Succeeded, local),
            ),
            Event::ConnectFailed => (
                Session { phase: Phase::Replying(ReplyCode::HostUnreachable), ..s },
                Action::Reply(ReplyCode::HostUnreachable, spec_unspecified()),
            ),
            Event::SetupFailed => fail(s, Failure::InterfaceBind),
            _ => fail(s, Failure::OutOfOrder),
        },
        Phase::Replying(code) => match e {
            Event::Replied => if code == ReplyCode::Succeeded {
                (Session { phase: Phase::Relaying, ..s }, Action::Relay)
            } else {
                close_next(s)
            },
            Event::ReplyFailed => fail(s, Failure::Reply),
            _ => fail(s, Failure::OutOfOrder),
        },
        Phase::Relaying => match e {
            Event::RelayEnded(ok) => if ok {
                close_next(s)
            } else {
                fail(s, Failure::Relay)
            },
            _ => fail(s, Failure::OutOfOrder),
        },
        Phase::Closing => match e {
            Event::ShutdownDone(ok) => if ok {
                close_next(s)
            } else {
                fail(s, Failure::Shutdown)
            },
            _ => fail(s, Failure::OutOfOrder),
        },
        Phase::Done => (s, Action::Finish(s.failure)),
    }
}

/// Every terminal path closes both sides: each step keeps the invariant,
/// and whenever a step finishes the session, neither the client-facing nor
/// the target connection is left open. Once the client side is shut down, the
/// target is shut down next whether or not the first shutdown succeeded.
pub proof fn lemma_shutdown_symmetry(s: Session, e: Event)
    requires
        inv(s),
    ensures
        inv(transition(s, e).0),
        transition(s, e).1 is Finish ==> {
            &&& transition(s, e).0.phase is Done
            &&& !transition(s, e).0.client_open
            &&& !transition(s, e).0.target_open
        },
        s.phase is Closing && !s.client_open && s.target_open && e is ShutdownDone
            ==> transition(s, e).1 is ShutdownTarget,
{
}

/// No byte is relayed unless the target connection is up and the client
/// has been told so: the relay starts only on the acknowledgement of a
/// "succeeded" reply.
pub proof fn lemma_relay_only_after_success(s: Session, e: Event)
    ensures
        transition(s, e).1 is Relay ==> s.phase == Phase::Replying(ReplyCode::Succeeded)
            && e is Replied,
{
}

/// A bind or associate command is always answered with "command not
/// supported" and the unspecified address, and the session never relays
/// afterwards.
pub proof fn lemma_unsupported_command(s: Session, cmd: Command, e: Event)
    requires
        s.phase is AwaitingCommand,
        cmd is Bind || cmd is Associate,
    ensures
        transition(s, Event::CommandRead(cmd)).1 == Action::Reply(
            ReplyCode::CommandNotSupported,
            spec_unspecified(),
        ),
        transition(transition(s, Event::CommandRead(cmd)).0, e).1 !is Relay,
{
}

/// A connect to a domain name goes on with the first address that the
/// lookup returned, however many it returned.
pub proof fn lemma_first_resolved_address(s: Session, addrs: Vec<SocketAddress>)
    requires
        s.phase is Resolving,
        addrs@.len() >= 1,
    ensures
        transition(s, Event::Resolved(addrs)).1 == (Action::Connect {
            target: addrs@[0],
            family: spec_family(addrs@[0]),
            interface: s.interface,
        }),
{
}

impl Session {
    /// A session for a freshly accepted connection, and its first action: authenticate.
    pub fn start(interface: String) -> (r: (Session, Action))
        ensures
            r.0 == initial(interface),
            r.1 == Action::Authenticate,
            inv(r.0),
    {
        (
            Session {
                phase: Phase::Authenticating,
                interface,
                client_open: true,
                target_open: false,
                failure: None,
            },
            Action::Authenticate,
        )
    }

    fn close_next(&mut self) -> (r: Action)
        ensures
            (*final(self), r) == close_next(*old(self)),
    {
        if self.client_open {
            self.phase = Phase::Closing;
            self.client_open = false;
            Action::ShutdownClient
        } else if self.target_open {
            self.phase = Phase::Closing;
            self.target_open = false;
            Action::ShutdownTarget
        } else {
            self.phase = Phase::Done;
            Action::Finish(self.failure)
        }
    }

    fn fail(&mut self, f: Failure) -> (r: Action)
        ensures
            (*final(self), r) == fail(*old(self), f),
    {
        if self.failure.is_none() {
            self.failure = Some(f);
        }
        self.close_next()
    }

    fn connect_to(&mut self, target: SocketAddress) -> (r: Action)
        ensures
            (*final(self), r) == connect_to(*old(self), target),
    {
        self.phase = Phase::Connecting;
        Action::Connect { target, family: target.family(), interface: self.interface.clone() }
    }

    /// Advances the session on the event that answers its last action, and
    /// returns what is to be done next.
    pub fn step(&mut self, event: Event) -> (r: Action)
        ensures
            (*final(self), r) == transition(*old(self), event),
    {
        match self.phase {
            Phase::Authenticating => match event {
                Event::Authenticated => {
                    self.phase = Phase::AwaitingCommand;
                    Action::ReadCommand
                },
                Event::AuthenticateFailed => self.fail(Failure::Authenticate),
                _ => self.fail(Failure::OutOfOrder),
            },
            Phase::AwaitingCommand => match event {
                Event::CommandRead(Command::Connect(TargetAddress::Socket(a))) => self.connect_to(a),
                Event::CommandRead(Command::Connect(TargetAddress::Domain(name, port))) => {
                    self.phase = Phase::Resolving;
                    Action::Resolve(name, port)
                },
                Event::CommandRead(_) => {
                    self.phase = Phase::Replying(ReplyCode::CommandNotSupported);
                    Action::Reply(ReplyCode::CommandNotSupported, SocketAddress::unspecified())
                },
                Event::CommandFailed => self.fail(Failure::Command),
                _ => self.fail(Failure::OutOfOrder),
            },
            Phase::Resolving => match event {
                Event::Resolved(addrs) => match first_resolved(&addrs) {
                    Some(a) => self.connect_to(a),
                    None => self.fail(Failure::NoAddress),
                },
                Event::ResolveFailed => self.fail(Failure::Resolve),
                _ => self.fail(Failure::OutOfOrder),
            },
            Phase::Connecting => match event {
                Event::Connected(local) => {
                    self.phase = Phase::Replying(ReplyCode::Succeeded);
                    self.target_open = true;
                    Action::Reply(ReplyCode::Succeeded, local)
                },
                Event::ConnectFailed => {
                    self.phase = Phase::Replying(ReplyCode::HostUnreachable);
                    Action::Reply(ReplyCode::HostUnreachable, SocketAddress::unspecified())
                },
                Event::SetupFailed => self.fail(Failure::InterfaceBind),
                _ => self.fail(Failure::OutOfOrder),
            },
            Phase::Replying(code) => match event {
                Event::Replied => match code {
                    ReplyCode::Succeeded => {
                        self.phase = Phase::Relaying;
                        Action::Relay
                    },
                    _ => self.close_next(),
                },
                Event::ReplyFailed => self.fail(Failure::Reply),
                _ => self.fail(Failure::OutOfOrder),
            },
            Phase::Relaying => match event {
                Event::RelayEnded(ok) => if ok {
                    self.close_next()
                } else {
                    self.fail(Failure::Relay)
                },
                _ => self.fail(Failure::OutOfOrder),
            },
            Phase::Closing => match event {
                Event::ShutdownDone(ok) => if ok {
                    self.close_next()
                } else {
                    self.fail(Failure::Shutdown)
                },
                _ => self.fail(Failure::OutOfOrder),
            },
            Phase::Done => Action::Finish(self.failure),
        }
    }
}

} // verus!
