//! The connection establisher: a linear, cancellable state machine.
//!
//! Establishment runs through strictly ordered stages — resolve, connect,
//! optional handshake, wrap, frame — with no backward transitions; each
//! failure is terminal and classified. The machine itself performs no I/O:
//! the host process carries out the action the current stage asks for
//! (resolve the host, open the socket, run the handshake) and feeds the
//! outcome back in as an event. Abandoning the attempt is therefore simply
//! dropping the machine together with whatever socket the host holds; no
//! stage is ever re-entered. Whether the handshake stage is taken at all is
//! decided once, from the connector, before the socket is opened.

use vstd::prelude::*;

use crate::addr::IpAddress;
use crate::addr::SocketAddress;
use crate::addr::first_v4;
use crate::addr::select_ipv4;
use crate::config::Connector;
use crate::errors::ConnectError;

verus! {

/// Where an establishment attempt stands. `Ready` and `Failed` are the two
/// terminal stages; no stage is ever left backwards.
#[derive(Clone, Copy, Debug, PartialEq, Eq, Structural)]
pub enum Stage {
    /// Waiting for the host's name resolution.
    Resolving,
    /// Waiting for the socket connect to the selected address.
    Connecting { address: SocketAddress },
    /// Waiting for the encrypted handshake on the open socket.
    Securing { address: SocketAddress },
    /// The stream is established; only codec attachment is left, which
    /// performs no I/O.
    Ready { address: SocketAddress, secured: bool },
    /// Terminal, classified failure; nothing partial is exposed.
    Failed { error: ConnectError },
}

/// What the host process reports back after carrying out an action.
#[derive(Debug)]
pub enum EstablishEvent {
    /// Name resolution returned these addresses, in resolution order.
    Resolved { addresses: Vec<IpAddress> },
    /// Name resolution itself failed.
    ResolutionFailed,
    /// The socket connect succeeded.
    Connected,
    /// The socket connect failed (refused, timeout, unreachable).
    ConnectionFailed,
    /// The encrypted handshake succeeded.
    HandshakeCompleted,
    /// The encrypted handshake or identity verification failed.
    HandshakeFailed,
}

/// What the host process must do next for the current stage.
#[derive(Clone, Copy, Debug, PartialEq, Eq, Structural)]
pub enum EstablishAction {
    /// Resolve the target host.
    Resolve,
    /// Open a socket to this address.
    Connect { address: SocketAddress },
    /// Run the encrypted handshake against the open socket.
    Handshake,
    /// Wrap the finished connection and attach the frame codec; `secured`
    /// says which transport variant to wrap.
    AttachCodec { secured: bool },
    /// Surface this classified failure to the caller.
    Fail { error: ConnectError },
}

/// The mathematical content of an establisher: the once-decided encryption
/// branch, the target port, and the current stage.
pub struct EstablisherView {
    pub secure: bool,
    pub port: u16,
    pub stage: Stage,
}

/// Whether `stage` is terminal: established or failed.
pub open spec fn is_terminal(stage: Stage) -> bool {
    stage is Ready || stage is Failed
}

/// Whether `event` is an outcome of the action that `stage` waits for.
pub open spec fn stage_accepts(stage: Stage, event: EstablishEvent) -> bool {
    match (stage, event) {
        (Stage::Resolving, EstablishEvent::Resolved { .. }) => true,
        (Stage::Resolving, EstablishEvent::ResolutionFailed) => true,
        (Stage::Connecting { .. }, EstablishEvent::Connected) => true,
        (Stage::Connecting { .. }, EstablishEvent::ConnectionFailed) => true,
        (Stage::Securing { .. }, EstablishEvent::HandshakeCompleted) => true,
        (Stage::Securing { .. }, EstablishEvent::HandshakeFailed) => true,
        _ => false,
    }
}

/// The transition relation: strictly forward, each failure classified for
/// its stage, the handshake stage taken exactly when `secure` holds. An
/// event that does not belong to the stage changes nothing.
pub open spec fn spec_step(secure: bool, port: u16, stage: Stage, event: EstablishEvent) -> Stage {
    match (stage, event) {
        (Stage::Resolving, EstablishEvent::Resolved { addresses }) => match first_v4(addresses@) {
            Option::Some(ip) => Stage::Connecting { address: SocketAddress { ip, port } },
            Option::None => Stage::Failed { error: ConnectError::AddressUnresolved },
        },
        (Stage::Resolving, EstablishEvent::ResolutionFailed) => Stage::Failed {
            error: ConnectError::AddressUnresolved,
        },
        (Stage::Connecting { address }, EstablishEvent::Connected) => if secure {
            Stage::Securing { address }
        } else {
            Stage::Ready { address, secured: false }
        },
        (Stage::Connecting { .. }, EstablishEvent::ConnectionFailed) => Stage::Failed {
            error: ConnectError::ConnectFailed,
        },
        (Stage::Securing { address }, EstablishEvent::HandshakeCompleted) => Stage::Ready {
            address,
            secured: true,
        },
        (Stage::Securing { .. }, EstablishEvent::HandshakeFailed) => Stage::Failed {
            error: ConnectError::HandshakeFailed,
        },
        _ => stage,
    }
}

/// How far along `stage` is; every accepted event strictly increases it,
/// which is the "no backward transitions" guarantee.
pub open spec fn rank(stage: Stage) -> int {
    match stage {
        Stage::Resolving => 0,
        Stage::Connecting { .. } => 1,
        Stage::Securing { .. } => 2,
        Stage::Ready { .. } => 3,
        Stage::Failed { .. } => 3,
    }
}

/// Drives one connection attempt through the staged sequence. Exactly one
/// attempt is in flight per value; the encryption branch is fixed at
/// construction from the connector and never consulted again.
#[derive(Clone, Copy, Debug, PartialEq, Eq, Structural)]
pub struct Establisher {
    secure: bool,
    port: u16,
    stage: Stage,
}

impl View for Establisher {
    type V = EstablisherView;

    closed spec fn view(&self) -> EstablisherView {
        EstablisherView { secure: self.secure, port: self.port, stage: self.stage }
    }
}

impl Establisher {
    /// What always holds of a machine that `new` produced and `step`
    /// advanced: the handshake stage is only entered on the encrypted
    /// branch, an established stream is secured exactly on that branch,
    /// and every address past resolution is IPv4 on the target port.
    pub open spec fn inv(&self) -> bool {
        &&& (self@.stage is Securing ==> self@.secure)
        &&& (self@.stage matches Stage::Ready { secured, .. } ==> secured == self@.secure)
        &&& (self@.stage matches Stage::Connecting { address } ==> address.ip is V4
            && address.port == self@.port)
        &&& (self@.stage matches Stage::Securing { address } ==> address.ip is V4
            && address.port == self@.port)
        &&& (self@.stage matches Stage::Ready { address, .. } ==> address.ip is V4
            && address.port == self@.port)
    }

    /// Begins an attempt against `port`: the plain-or-encrypted branch is
    /// decided here, once, from the connector — the sentinel selects the
    /// plain path — and the first stage is name resolution.
    pub fn new(connector: &Connector, port: u16) -> (r: Establisher)
        ensures
            r@.secure == !(connector is NoEncryption),
            r@.port == port,
            r@.stage == Stage::Resolving,
            r.inv(),
    {
        Establisher { secure: connector.is_encrypted(), port, stage: Stage::Resolving }
    }

    /// The current stage.
    pub fn stage(&self) -> (r: Stage)
        ensures
            r == self@.stage,
    {
        self.stage
    }

    /// Whether the attempt has ended, in success or in failure.
    pub fn is_terminal(&self) -> (r: bool)
        ensures
            r == is_terminal(self@.stage),
    {
        match self.stage {
            Stage::Ready { .. } => true,
            Stage::Failed { .. } => true,
            _ => false,
        }
    }

    /// What the host process must do for the current stage.
    pub fn next_action(&self) -> (r: EstablishAction)
        ensures
            match self@.stage {
                Stage::Resolving => r == EstablishAction::Resolve,
                Stage::Connecting { address } => r == (EstablishAction::Connect { address }),
                Stage::Securing { .. } => r == EstablishAction::Handshake,
                Stage::Ready { secured, .. } => r == (EstablishAction::AttachCodec { secured }),
                Stage::Failed { error } => r == (EstablishAction::Fail { error }),
            },
    {
        match self.stage {
            Stage::Resolving => EstablishAction::Resolve,
            Stage::Connecting { address } => EstablishAction::Connect { address },
            Stage::Securing { .. } => EstablishAction::Handshake,
            Stage::Ready { secured, .. } => EstablishAction::AttachCodec { secured },
            Stage::Failed { error } => EstablishAction::Fail { error },
        }
    }

    /// Feeds the outcome of the requested action back in and advances one
    /// stage. The address handed to the connect stage is always the first
    /// IPv4 entry of the resolution result, paired with the target port; a
    /// result without one fails as `AddressUnresolved`.
    pub fn step(&mut self, event: EstablishEvent)
        requires
            old(self).inv(),
            !is_terminal(old(self)@.stage),
            stage_accepts(old(self)@.stage, event),
        ensures
            final(self).inv(),
            final(self)@.secure == old(self)@.secure,
            final(self)@.port == old(self)@.port,
            final(self)@.stage == spec_step(old(self)@.secure, old(self)@.port, old(self)@.stage, event),
            rank(final(self)@.stage) > rank(old(self)@.stage),
            !old(self)@.secure ==> !(final(self)@.stage is Securing),
            final(self)@.stage matches Stage::Ready { secured, .. }
                ==> secured == old(self)@.secure,
            final(self)@.stage matches Stage::Connecting { address } ==> address.ip is V4
                && address.port == old(self)@.port,
    {
        let stage = self.stage;
        let next = match (stage, event) {
            (Stage::Resolving, EstablishEvent::Resolved { addresses }) => {
                match select_ipv4(&addresses, self.port) {
                    Ok(address) => Stage::Connecting { address },
                    Err(error) => Stage::Failed { error },
                }
            },
            (Stage::Resolving, EstablishEvent::ResolutionFailed) => {
                Stage::Failed { error: ConnectError::AddressUnresolved }
            },
            (Stage::Connecting { address }, EstablishEvent::Connected) => {
                if self.secure {
                    Stage::Securing { address }
                } else {
                    Stage::Ready { address, secured: false }
                }
            },
            (Stage::Connecting { .. }, EstablishEvent::ConnectionFailed) => {
                Stage::Failed { error: ConnectError::ConnectFailed }
            },
            (Stage::Securing { address }, EstablishEvent::HandshakeCompleted) => {
                Stage::Ready { address, secured: true }
            },
            (Stage::Securing { .. }, EstablishEvent::HandshakeFailed) => {
                Stage::Failed { error: ConnectError::HandshakeFailed }
            },
            (_, _) => stage,
        };
        self.stage = next;
    }
}

/// The stage a run of events leads to, starting from `stage`.
pub open spec fn run(secure: bool, port: u16, stage: Stage, events: Seq<EstablishEvent>) -> Stage
    decreases events.len(),
{
    if events.len() == 0 {
        stage
    } else {
        run(secure, port, spec_step(secure, port, stage, events[0]), events.drop_first())
    }
}

/// The stages a plain-path attempt can stand in: never the handshake
/// stage, and established only without encryption.
pub open spec fn plain_ok(stage: Stage) -> bool {
    &&& !(stage is Securing)
    &&& (stage matches Stage::Ready { secured, .. } ==> secured == false)
}

proof fn lemma_plain_preserved(port: u16, stage: Stage, events: Seq<EstablishEvent>)
    requires
        plain_ok(stage),
    ensures
        plain_ok(run(false, port, stage, events)),
    decreases events.len(),
{
    if events.len() > 0 {
        let next = spec_step(false, port, stage, events[0]);
        assert(plain_ok(next));
        lemma_plain_preserved(port, next, events.drop_first());
    }
}

/// Without encryption configured, the establisher completes via the plain
/// path: no sequence of events ever brings it into the handshake stage,
/// and wherever it reaches `Ready`, the stream is the plain variant.
pub proof fn lemma_plain_path(port: u16, events: Seq<EstablishEvent>)
    ensures
        !(run(false, port, Stage::Resolving, events) is Securing),
        run(false, port, Stage::Resolving, events) matches Stage::Ready { secured, .. }
            ==> secured == false,
{
    lemma_plain_preserved(port, Stage::Resolving, events);
}

/// The stages a secured attempt can stand in: established only through the
/// completed handshake.
pub open spec fn secured_ok(stage: Stage) -> bool {
    stage matches Stage::Ready { secured, .. } ==> secured == true
}

proof fn lemma_secured_preserved(port: u16, stage: Stage, events: Seq<EstablishEvent>)
    requires
        secured_ok(stage),
    ensures
        secured_ok(run(true, port, stage, events)),
    decreases events.len(),
{
    if events.len() > 0 {
        let next = spec_step(true, port, stage, events[0]);
        assert(secured_ok(next));
        lemma_secured_preserved(port, next, events.drop_first());
    }
}

/// With encryption configured, every established stream is the secured
/// variant: `Ready` is only ever reached with `secured` set.
pub proof fn lemma_secured_path(port: u16, events: Seq<EstablishEvent>)
    ensures
        run(true, port, Stage::Resolving, events) matches Stage::Ready { secured, .. }
            ==> secured == true,
{
    lemma_secured_preserved(port, Stage::Resolving, events);
}

} // verus!
