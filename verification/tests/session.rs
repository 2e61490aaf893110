use tunlink::error::{ConfigStep, TunnelError};
use tunlink::session::{advance, exit_status, socket_address, start, Phase, Role};

fn startup(role: Role) -> Vec<Phase> {
    let mut phases = vec![start(role)];
    while *phases.last().unwrap() != Phase::Forwarding {
        let next = advance(role, *phases.last().unwrap(), true);
        phases.push(next);
    }
    phases
}

#[test]
fn server_sets_up_device_then_listens_then_shakes_hands() {
    assert_eq!(
        startup(Role::Server),
        vec![
            Phase::OpenDevice,
            Phase::Configure(ConfigStep::AssignAddress),
            Phase::Configure(ConfigStep::LinkUp),
            Phase::Listen,
            Phase::Accept,
            Phase::AwaitHello,
            Phase::SendAck,
            Phase::Split,
            Phase::Forwarding,
        ]
    );
}

#[test]
fn client_connects_and_shakes_hands_then_sets_up_device() {
    assert_eq!(
        startup(Role::Client),
        vec![
            Phase::Connect,
            Phase::SendHello,
            Phase::AwaitAck,
            Phase::OpenDevice,
            Phase::Configure(ConfigStep::AssignAddress),
            Phase::Configure(ConfigStep::LinkUp),
            Phase::Split,
            Phase::Forwarding,
        ]
    );
}

#[test]
fn startup_failure_is_reported_by_phase() {
    let cases = [
        (Phase::OpenDevice, TunnelError::DeviceUnavailable),
        (
            Phase::Configure(ConfigStep::AssignAddress),
            TunnelError::ConfigurationFailed(ConfigStep::AssignAddress),
        ),
        (Phase::Configure(ConfigStep::LinkUp), TunnelError::ConfigurationFailed(ConfigStep::LinkUp)),
        (Phase::Listen, TunnelError::IOError),
        (Phase::Accept, TunnelError::IOError),
        (Phase::Connect, TunnelError::IOError),
        (Phase::SendHello, TunnelError::HandshakeFailed),
        (Phase::AwaitHello, TunnelError::HandshakeFailed),
        (Phase::SendAck, TunnelError::HandshakeFailed),
        (Phase::AwaitAck, TunnelError::HandshakeFailed),
        (Phase::Split, TunnelError::IOError),
    ];
    for role in [Role::Server, Role::Client] {
        for (phase, error) in cases {
            assert_eq!(advance(role, phase, false), Phase::Failed(error));
        }
    }
}

#[test]
fn failed_endpoint_stays_failed() {
    let failed = Phase::Failed(TunnelError::HandshakeFailed);
    assert_eq!(advance(Role::Server, failed, true), failed);
    assert_eq!(advance(Role::Client, failed, false), failed);
    assert_eq!(exit_status(failed), Some(Err(TunnelError::HandshakeFailed)));
}

#[test]
fn session_ends_when_primary_flow_ends_whatever_the_other_does() {
    for role in [Role::Server, Role::Client] {
        for primary in [true, false] {
            for secondary in [true, false] {
                let draining = advance(role, Phase::Forwarding, primary);
                assert_eq!(draining, Phase::Draining);
                let finished = advance(role, draining, secondary);
                assert_eq!(finished, Phase::Finished);
                assert_eq!(exit_status(finished), Some(Ok(())));
                assert_eq!(advance(role, finished, primary), Phase::Finished);
            }
        }
    }
}

#[test]
fn running_endpoint_has_no_exit_status() {
    for role in [Role::Server, Role::Client] {
        for phase in startup(role) {
            assert_eq!(exit_status(phase), None);
        }
    }
    assert_eq!(exit_status(Phase::Draining), None);
}

#[test]
fn socket_address_joins_host_and_port() {
    assert_eq!(socket_address("0.0.0.0", "9000"), "0.0.0.0:9000");
    assert_eq!(socket_address("", ""), ":");
}
