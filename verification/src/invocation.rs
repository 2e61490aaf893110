//! What the command line asks for.

use crate::session::Role;
use vstd::prelude::*;
use vstd::string::*;

verus! {

/// Number of arguments, the program's name included, that a run needs.
pub const ARGUMENTS_NEEDED: usize = 6;

/// The inputs of one endpoint.
#[derive(Debug, PartialEq, Eq)]
pub struct Settings {
    /// Whether to listen or to connect.
    pub role: Role,
    /// The address to bind, or the server's address.
    pub address: String,
    /// The TCP port.
    pub port: String,
    /// The local tunnel address in CIDR form.
    pub tunnel_address: String,
    /// The name of the virtual interface.
    pub interface: String,
}

/// The settings as plain values.
pub struct SettingsView {
    pub role: Role,
    pub address: Seq<char>,
    pub port: Seq<char>,
    pub tunnel_address: Seq<char>,
    pub interface: Seq<char>,
}

impl View for Settings {
    type V = SettingsView;

    open spec fn view(&self) -> SettingsView {
        SettingsView {
            role: self.role,
            address: self.address@,
            port: self.port@,
            tunnel_address: self.tunnel_address@,
            interface: self.interface@,
        }
    }
}

/// What to do with a command line.
#[derive(Debug, PartialEq, Eq)]
pub enum Invocation {
    /// Arguments are missing: print the usage message and exit.
    Usage,
    /// The mode is neither `server` nor `client`: report it and exit.
    InvalidMode(String),
    /// Run an endpoint.
    Run(Settings),
}

/// The role that a mode word names.
pub open spec fn role_named(mode: Seq<char>) -> Option<Role> {
    if mode == "server"@ {
        Some(Role::Server)
    } else if mode == "client"@ {
        Some(Role::Client)
    } else {
        None
    }
}

/// Reads a mode word.
pub fn parse_mode(mode: &str) -> (role: Option<Role>)
    ensures
        role == role_named(mode@),
{
    let word = String::from_str(mode);
    if word == String::from_str("server") {
        Some(Role::Server)
    } else if word == String::from_str("client") {
        Some(Role::Client)
    } else {
        None
    }
}

/// Reads the command line, the program's name being the first argument:
/// mode, address, port, tunnel address and interface name follow, and
/// anything after them is ignored.
pub fn parse_arguments(args: &[String]) -> (invocation: Invocation)
    ensures
        args@.len() < ARGUMENTS_NEEDED ==> invocation is Usage,
        args@.len() >= ARGUMENTS_NEEDED ==> match role_named(args@[1]@) {
            None => invocation matches Invocation::InvalidMode(mode) && mode@ == args@[1]@,
            Some(role) => invocation matches Invocation::Run(settings) && settings@ == (
            SettingsView {
                role,
                address: args@[2]@,
                port: args@[3]@,
                tunnel_address: args@[4]@,
                interface: args@[5]@,
            }),
        },
{
    if args.len() < ARGUMENTS_NEEDED {
        return Invocation::Usage;
    }
    match parse_mode(args[1].as_str()) {
        None => Invocation::InvalidMode(args[1].clone()),
        Some(role) => Invocation::Run(
            Settings {
                role,
                address: args[2].clone(),
                port: args[3].clone(),
                tunnel_address: args[4].clone(),
                interface: args[5].clone(),
            },
        ),
    }
}

/// The three lines of the usage message for a program called `program`.
pub open spec fn usage_text(program: Seq<char>) -> Seq<Seq<char>> {
    seq![
        "Usage:"@,
        "  Server: "@ + program + " server <bind_addr> <port> <tun_ip_cidr> <tun_name>"@,
        "  Client: "@ + program + " client <server_addr> <port> <my_ip_cidr> <tun_name>"@,
    ]
}

/// Builds the usage message.
pub fn usage(program: &str) -> (lines: Vec<String>)
    ensures
        lines.deep_view() == usage_text(program@),
{
    let mut server = String::from_str("  Server: ");
    server.append(program);
    server.append(" server <bind_addr> <port> <tun_ip_cidr> <tun_name>");
    let mut client = String::from_str("  Client: ");
    client.append(program);
    client.append(" client <server_addr> <port> <my_ip_cidr> <tun_name>");
    let mut lines: Vec<String> = Vec::new();
    lines.push(String::from_str("Usage:"));
    lines.push(server);
    lines.push(client);
    assert(lines.deep_view() =~= usage_text(program@));
    lines
}

} // verus!
