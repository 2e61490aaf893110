//! The life of one endpoint: the steps that bring it up, in the order of its
//! role, then forwarding, then the end. One session is all there is: no step
//! is tried twice and nothing reconnects.

use crate::error::{ConfigStep, TunnelError};
use crate::flow::{inbound_on, Delivery, FlowEnd};
use crate::frame::announced_len;
use vstd::prelude::*;
use vstd::string::*;

verus! {

/// Longest time, in milliseconds, that an endpoint waits for the flow from
/// the device to the socket once the other flow has stopped.
pub const DRAIN_WAIT_MILLIS: u64 = 2000;

/// The part an endpoint plays in setting up the connection.
#[derive(Debug, Clone, Copy, PartialEq, Eq, Structural)]
pub enum Role {
    /// Listens and accepts exactly one connection.
    Server,
    /// Connects to one peer.
    Client,
}

/// Where an endpoint stands. Each phase but the last two names the one
/// operation that the endpoint performs next.
#[derive(Debug, Clone, Copy, PartialEq, Eq, Structural)]
pub enum Phase {
    /// Open the virtual interface.
    OpenDevice,
    /// Run the command of one configuration step.
    Configure(ConfigStep),
    /// Bind the listening socket.
    Listen,
    /// Accept the one connection.
    Accept,
    /// Connect to the peer.
    Connect,
    /// Send the line that declares the own address.
    SendHello,
    /// Read the client's line.
    AwaitHello,
    /// Send the acknowledgment.
    SendAck,
    /// Read the server's answer.
    AwaitAck,
    /// Split the connection into its two independent halves.
    Split,
    /// Run both flows until the one from the socket to the device stops.
    Forwarding,
    /// Give the flow from the device to the socket a bounded wait.
    Draining,
    /// The session is over and the endpoint exits cleanly.
    Finished,
    /// Startup failed and the endpoint reports this error.
    Failed(TunnelError),
}

/// The phase in which an endpoint starts.
pub open spec fn first_phase(role: Role) -> Phase {
    match role {
        Role::Server => Phase::OpenDevice,
        Role::Client => Phase::Connect,
    }
}

/// The error that a failed operation of `phase` is reported as.
pub open spec fn failure_in(phase: Phase) -> TunnelError {
    match phase {
        Phase::OpenDevice => TunnelError::DeviceUnavailable,
        Phase::Configure(step) => TunnelError::ConfigurationFailed(step),
        Phase::SendHello | Phase::AwaitHello | Phase::SendAck | Phase::AwaitAck =>
            TunnelError::HandshakeFailed,
        _ => TunnelError::IOError,
    }
}

/// The phase that follows a successful operation of `phase`.
pub open spec fn successor(role: Role, phase: Phase) -> Phase {
    match (role, phase) {
        (_, Phase::OpenDevice) => Phase::Configure(ConfigStep::AssignAddress),
        (_, Phase::Configure(ConfigStep::AssignAddress)) => Phase::Configure(ConfigStep::LinkUp),
        (Role::Server, Phase::Configure(ConfigStep::LinkUp)) => Phase::Listen,
        (Role::Client, Phase::Configure(ConfigStep::LinkUp)) => Phase::Split,
        (_, Phase::Listen) => Phase::Accept,
        (_, Phase::Accept) => Phase::AwaitHello,
        (_, Phase::AwaitHello) => Phase::SendAck,
        (_, Phase::SendAck) => Phase::Split,
        (_, Phase::Connect) => Phase::SendHello,
        (_, Phase::SendHello) => Phase::AwaitAck,
        (_, Phase::AwaitAck) => Phase::OpenDevice,
        (_, Phase::Split) => Phase::Forwarding,
        (_, Phase::Forwarding) => Phase::Draining,
        (_, Phase::Draining) => Phase::Finished,
        (_, Phase::Finished) => Phase::Finished,
        (_, Phase::Failed(e)) => Phase::Failed(e),
    }
}

/// True for the phases that bring the endpoint up.
pub open spec fn is_startup(phase: Phase) -> bool {
    !(phase is Forwarding || phase is Draining || phase is Finished || phase is Failed)
}

/// The phase after `phase`, given whether its operation succeeded. During
/// startup a failure is final. From forwarding on the outcome no longer
/// matters: the session ends when the flow from the socket to the device
/// does, and however the wait for the other flow turns out.
pub open spec fn advance_spec(role: Role, phase: Phase, succeeded: bool) -> Phase {
    if is_startup(phase) && !succeeded {
        Phase::Failed(failure_in(phase))
    } else {
        successor(role, phase)
    }
}

/// Starts an endpoint.
pub fn start(role: Role) -> (phase: Phase)
    ensures
        phase == first_phase(role),
{
    match role {
        Role::Server => Phase::OpenDevice,
        Role::Client => Phase::Connect,
    }
}

/// Moves an endpoint on once the operation of its phase has ended.
pub fn advance(role: Role, phase: Phase, succeeded: bool) -> (next: Phase)
    ensures
        next == advance_spec(role, phase, succeeded),
{
    match phase {
        Phase::Failed(e) => Phase::Failed(e),
        Phase::Finished => Phase::Finished,
        Phase::Draining => Phase::Finished,
        Phase::Forwarding => Phase::Draining,
        _ => if !succeeded {
            Phase::Failed(
                match phase {
                    Phase::OpenDevice => TunnelError::DeviceUnavailable,
                    Phase::Configure(step) => TunnelError::ConfigurationFailed(step),
                    Phase::SendHello | Phase::AwaitHello | Phase::SendAck | Phase::AwaitAck =>
                        TunnelError::HandshakeFailed,
                    _ => TunnelError::IOError,
                },
            )
        } else {
            match phase {
                Phase::OpenDevice => Phase::Configure(ConfigStep::AssignAddress),
                Phase::Configure(ConfigStep::AssignAddress) => Phase::Configure(ConfigStep::LinkUp),
                Phase::Configure(ConfigStep::LinkUp) => match role {
                    Role::Server => Phase::Listen,
                    Role::Client => Phase::Split,
                },
                Phase::Listen => Phase::Accept,
                Phase::Accept => Phase::AwaitHello,
                Phase::AwaitHello => Phase::SendAck,
                Phase::SendAck => Phase::Split,
                Phase::Connect => Phase::SendHello,
                Phase::SendHello => Phase::AwaitAck,
                Phase::AwaitAck => Phase::OpenDevice,
                _ => Phase::Forwarding,
            }
        },
    }
}

/// The result with which the endpoint exits, once there is one.
pub fn exit_status(phase: Phase) -> (status: Option<Result<(), TunnelError>>)
    ensures
        phase is Finished ==> status == Some(Ok::<(), TunnelError>(())),
        phase matches Phase::Failed(e) ==> status == Some(Err::<(), TunnelError>(e)),
        !(phase is Finished || phase is Failed) ==> status.is_none(),
{
    match phase {
        Phase::Finished => Some(Ok(())),
        Phase::Failed(e) => Some(Err(e)),
        _ => None,
    }
}

/// The address to bind or to connect to: host and port joined by a colon.
pub fn socket_address(host: &str, port: &str) -> (address: String)
    ensures
        address@ == host@ + seq![':'] + port@,
{
    let mut address = String::from_str(host);
    proof {
        reveal_strlit(":");
    }
    address.append(":");
    address.append(port);
    assert(address@ =~= host@ + seq![':'] + port@);
    address
}

/// The phase reached from the start when the operations end as `outcomes`
/// tells, one entry for each, in order.
pub open spec fn reached(role: Role, outcomes: Seq<bool>) -> Phase
    decreases outcomes.len(),
{
    if outcomes.len() == 0 {
        first_phase(role)
    } else {
        advance_spec(role, reached(role, outcomes.drop_last()), outcomes.last())
    }
}

/// Place of a phase in the order of its role, for the phases of startup
/// and the forwarding that follows the last of them.
pub open spec fn place(role: Role, phase: Phase) -> Option<nat> {
    match (role, phase) {
        (Role::Server, Phase::OpenDevice) => Some(0),
        (Role::Server, Phase::Configure(ConfigStep::AssignAddress)) => Some(1),
        (Role::Server, Phase::Configure(ConfigStep::LinkUp)) => Some(2),
        (Role::Server, Phase::Listen) => Some(3),
        (Role::Server, Phase::Accept) => Some(4),
        (Role::Server, Phase::AwaitHello) => Some(5),
        (Role::Server, Phase::SendAck) => Some(6),
        (Role::Server, Phase::Split) => Some(7),
        (Role::Server, Phase::Forwarding) => Some(8),
        (Role::Client, Phase::Connect) => Some(0),
        (Role::Client, Phase::SendHello) => Some(1),
        (Role::Client, Phase::AwaitAck) => Some(2),
        (Role::Client, Phase::OpenDevice) => Some(3),
        (Role::Client, Phase::Configure(ConfigStep::AssignAddress)) => Some(4),
        (Role::Client, Phase::Configure(ConfigStep::LinkUp)) => Some(5),
        (Role::Client, Phase::Split) => Some(6),
        (Role::Client, Phase::Forwarding) => Some(7),
        _ => None,
    }
}

/// Number of operations that bring an endpoint of `role` up.
pub open spec fn startup_steps(role: Role) -> nat {
    match role {
        Role::Server => 8,
        Role::Client => 7,
    }
}

/// Every phase that an endpoint gets to while it starts up or forwards has
/// its place in the order of the role, and all that came before succeeded.
proof fn lemma_reached(role: Role, outcomes: Seq<bool>)
    ensures
        place(role, reached(role, outcomes)) is Some || !is_startup(reached(role, outcomes)),
        place(role, reached(role, outcomes)) is Some ==> {
            &&& place(role, reached(role, outcomes)) == Some(outcomes.len())
            &&& forall|i: int| 0 <= i < outcomes.len() ==> outcomes[i]
        },
    decreases outcomes.len(),
{
    if outcomes.len() > 0 {
        let before = outcomes.drop_last();
        lemma_reached(role, before);
        if place(role, reached(role, outcomes)) is Some {
            assert forall|i: int| 0 <= i < outcomes.len() implies outcomes[i] by {
                if i < before.len() {
                    assert(before[i] == outcomes[i]);
                }
            }
        }
    }
}

/// Whatever precedes a phase with a place has a place too.
proof fn lemma_prefix_has_place(role: Role, outcomes: Seq<bool>, i: int)
    requires
        0 <= i <= outcomes.len(),
        place(role, reached(role, outcomes)) is Some,
    ensures
        place(role, reached(role, outcomes.take(i))) is Some,
    decreases outcomes.len() - i,
{
    if i == outcomes.len() {
        assert(outcomes.take(i) =~= outcomes);
    } else {
        let before = outcomes.drop_last();
        lemma_reached(role, before);
        assert(before.take(i) =~= outcomes.take(i));
        lemma_prefix_has_place(role, before, i);
    }
}

/// Forwarding starts only after startup is complete. If an endpoint is
/// forwarding, then every operation of its startup has been performed, once
/// and in the order of its role, and every one succeeded: the device is
/// open and configured, the connection stands and the handshake is done.
pub proof fn forwarding_follows_startup(role: Role, outcomes: Seq<bool>)
    requires
        reached(role, outcomes) is Forwarding,
    ensures
        outcomes.len() == startup_steps(role),
        forall|i: int| 0 <= i < outcomes.len() ==> outcomes[i],
        forall|i: int|
            0 <= i <= outcomes.len() ==> place(role, #[trigger] reached(role, outcomes.take(i)))
                == Some(i as nat),
{
    lemma_reached(role, outcomes);
    assert forall|i: int| 0 <= i <= outcomes.len() implies place(
        role,
        #[trigger] reached(role, outcomes.take(i)),
    ) == Some(i as nat) by {
        lemma_prefix_has_place(role, outcomes, i);
        lemma_reached(role, outcomes.take(i));
    }
}

/// Startup errors are final: a failed startup operation ends the endpoint
/// with the error of its phase, and nothing that happens afterwards changes
/// that.
pub proof fn startup_failure_is_final(role: Role, phase: Phase, later: bool)
    requires
        is_startup(phase),
    ensures
        advance_spec(role, phase, false) == Phase::Failed(failure_in(phase)),
        advance_spec(role, advance_spec(role, phase, false), later) == advance_spec(
            role,
            phase,
            false,
        ),
{
}

/// Termination policy. The session ends when the flow from the socket to
/// the device does, for whatever reason; the other flow is then waited for,
/// and however that wait turns out the endpoint finishes cleanly and stays
/// finished.
pub proof fn session_ends_with_primary_flow(role: Role, primary: bool, secondary: bool, later: bool)
    ensures
        advance_spec(role, Phase::Forwarding, primary) == Phase::Draining,
        advance_spec(role, Phase::Draining, secondary) == Phase::Finished,
        advance_spec(role, Phase::Finished, later) == Phase::Finished,
{
}

/// Disconnect propagation. When the stream closes before a header is
/// complete, or inside a frame that the buffer could have held, the flow
/// from the socket to the device stops; the session then leaves forwarding,
/// and whether or not the other flow ends within its wait, the endpoint
/// finishes cleanly.
pub proof fn disconnect_ends_session(stream: Seq<u8>, capacity: nat, role: Role, drained: bool)
    requires
        stream.len() < 2 || (announced_len(stream.subrange(0, 2)) <= capacity && stream.len() < 2
            + announced_len(stream.subrange(0, 2))),
    ensures
        inbound_on(stream, capacity) == Delivery::Stopped(
            FlowEnd::Failed(TunnelError::ConnectionClosed),
        ),
        advance_spec(role, advance_spec(role, Phase::Forwarding, false), drained)
            == Phase::Finished,
{
}

} // verus!
