use tunlink::error::{ConfigStep, TunnelError};
use tunlink::invocation::{parse_arguments, parse_mode, usage, Invocation, Settings};
use tunlink::session::Role;

fn args(words: &[&str]) -> Vec<String> {
    words.iter().map(|word| word.to_string()).collect()
}

#[test]
fn mode_word_names_role() {
    assert_eq!(parse_mode("server"), Some(Role::Server));
    assert_eq!(parse_mode("client"), Some(Role::Client));
    assert_eq!(parse_mode("Server"), None);
    assert_eq!(parse_mode("servers"), None);
    assert_eq!(parse_mode(""), None);
}

#[test]
fn missing_arguments_ask_for_usage() {
    assert_eq!(parse_arguments(&[]), Invocation::Usage);
    assert_eq!(parse_arguments(&args(&["tunnel"])), Invocation::Usage);
    assert_eq!(
        parse_arguments(&args(&["tunnel", "server", "0.0.0.0", "9000", "10.0.0.1/24"])),
        Invocation::Usage
    );
    assert_eq!(
        parse_arguments(&args(&["tunnel", "bogus", "0.0.0.0", "9000", "10.0.0.1/24"])),
        Invocation::Usage
    );
}

#[test]
fn server_and_client_lines_are_read() {
    assert_eq!(
        parse_arguments(&args(&["tunnel", "server", "0.0.0.0", "9000", "10.0.0.1/24", "tun0"])),
        Invocation::Run(Settings {
            role: Role::Server,
            address: "0.0.0.0".to_string(),
            port: "9000".to_string(),
            tunnel_address: "10.0.0.1/24".to_string(),
            interface: "tun0".to_string(),
        })
    );
    assert_eq!(
        parse_arguments(&args(&[
            "tunnel", "client", "192.0.2.7", "9000", "10.0.0.2/24", "tun1", "extra"
        ])),
        Invocation::Run(Settings {
            role: Role::Client,
            address: "192.0.2.7".to_string(),
            port: "9000".to_string(),
            tunnel_address: "10.0.0.2/24".to_string(),
            interface: "tun1".to_string(),
        })
    );
}

#[test]
fn unknown_mode_is_reported() {
    assert_eq!(
        parse_arguments(&args(&["tunnel", "relay", "0.0.0.0", "9000", "10.0.0.1/24", "tun0"])),
        Invocation::InvalidMode("relay".to_string())
    );
}

#[test]
fn usage_names_the_program() {
    assert_eq!(
        usage("tunnel"),
        vec![
            "Usage:",
            "  Server: tunnel server <bind_addr> <port> <tun_ip_cidr> <tun_name>",
            "  Client: tunnel client <server_addr> <port> <my_ip_cidr> <tun_name>",
        ]
    );
}

#[test]
fn every_error_has_its_message() {
    assert_eq!(TunnelError::DeviceUnavailable.message(), "TUN device unavailable");
    assert_eq!(
        TunnelError::ConfigurationFailed(ConfigStep::AssignAddress).message(),
        "Failed to set IP on TUN"
    );
    assert_eq!(
        TunnelError::ConfigurationFailed(ConfigStep::LinkUp).message(),
        "Failed to set TUN up"
    );
    assert_eq!(TunnelError::HandshakeFailed.message(), "Handshake failed");
    assert_eq!(TunnelError::PacketTooLarge.message(), "Packet too large");
    assert_eq!(TunnelError::PacketTooLargeForBuffer.message(), "Packet too large for buffer");
    assert_eq!(TunnelError::ConnectionClosed.message(), "Connection closed");
    assert_eq!(TunnelError::IOError.message(), "I/O error");
}
