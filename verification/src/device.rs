//! The virtual interface: the request that attaches it and the commands that
//! configure it. Opening the control device and running the commands is left
//! to the caller; what to ask for is decided here.

use crate::error::ConfigStep;
use vstd::prelude::*;
use vstd::string::*;

verus! {

/// Size in bytes of the interface-name field of an attach request.
pub const NAME_FIELD_LEN: usize = 16;

/// Flag bit asking for a device that carries IP packets.
pub const TUN_DEVICE: i32 = 0x0001;

/// Flag bit asking for packets without a protocol-information header.
pub const NO_PACKET_INFO: i32 = 0x1000;

/// Both flag bits of an attach request, as the sixteen-bit field holds them.
pub const ATTACH_FLAGS: i16 = 0x1001;

/// `nix::libc::IFNAMSIZ`, the platform's size of an interface-name field.
/// Claimed, not proved: on every target for which libc defines the tunnel
/// flags below its value is sixteen.
#[verifier::external_body]
fn platform_name_field_len() -> (len: usize)
    ensures
        len == NAME_FIELD_LEN,
{
    nix::libc::IFNAMSIZ
}

/// `nix::libc::IFF_TUN`. Claimed, not proved: its value is `0x0001`.
#[verifier::external_body]
fn platform_tun_flag() -> (flag: i32)
    ensures
        flag == TUN_DEVICE,
{
    nix::libc::IFF_TUN
}

/// `nix::libc::IFF_NO_PI`. Claimed, not proved: its value is `0x1000`.
#[verifier::external_body]
fn platform_no_pi_flag() -> (flag: i32)
    ensures
        flag == NO_PACKET_INFO,
{
    nix::libc::IFF_NO_PI
}

/// The name field for an interface name given as bytes: the name, then zero
/// bytes up to the size of the field.
pub open spec fn name_field(name: Seq<u8>) -> Seq<u8>
    recommends
        name.len() <= NAME_FIELD_LEN,
{
    Seq::new(
        NAME_FIELD_LEN as nat,
        |i: int|
            if i < name.len() {
                name[i]
            } else {
                0u8
            },
    )
}

/// What the kernel is asked when an interface is attached.
#[derive(Debug, PartialEq, Eq)]
pub struct AttachRequest {
    /// The null-padded interface name, [`NAME_FIELD_LEN`] bytes long.
    pub name: Vec<u8>,
    /// The device kind and framing flags.
    pub flags: i16,
}

/// Builds the request that attaches the interface called `name`: a packet
/// device, one whole IP packet per read and write, no extra header.
pub fn attach_request(name: &str) -> (request: AttachRequest)
    requires
        name.spec_bytes().len() <= NAME_FIELD_LEN,
    ensures
        request.name@ == name_field(name.spec_bytes()),
        request.flags == ATTACH_FLAGS,
{
    let bytes = name.as_bytes();
    let size = platform_name_field_len();
    let mut field: Vec<u8> = Vec::new();
    let mut i: usize = 0;
    while i < size
        invariant
            i <= size == NAME_FIELD_LEN,
            field@.len() == i,
            forall|j: int| 0 <= j < i ==> field@[j] == 0u8,
        decreases size - i,
    {
        field.push(0u8);
        i += 1;
    }
    let mut k: usize = 0;
    while k < bytes.len()
        invariant
            k <= bytes@.len() <= NAME_FIELD_LEN,
            field@.len() == NAME_FIELD_LEN,
            forall|j: int| 0 <= j < k ==> field@[j] == bytes@[j],
            forall|j: int| k <= j < NAME_FIELD_LEN ==> field@[j] == 0u8,
        decreases bytes@.len() - k,
    {
        field[k] = bytes[k];
        k += 1;
    }
    let wide: i32 = platform_tun_flag() | platform_no_pi_flag();
    assert(0x0001i32 | 0x1000i32 == 0x1001i32) by (bit_vector);
    let flags: i16 = wide as i16;
    assert(field@ =~= name_field(name.spec_bytes()));
    AttachRequest { name: field, flags }
}

/// The program and arguments that carry out `step` for the interface `name`
/// with the tunnel address `cidr`.
pub open spec fn command_line(step: ConfigStep, cidr: Seq<char>, name: Seq<char>) -> Seq<
    Seq<char>,
> {
    match step {
        ConfigStep::AssignAddress => seq!["ip"@, "addr"@, "add"@, cidr, "dev"@, name],
        ConfigStep::LinkUp => seq!["ip"@, "link"@, "set"@, "dev"@, name, "up"@],
    }
}

/// Builds the command for one configuration step: the program to run, then
/// its arguments.
pub fn command(step: ConfigStep, cidr: &str, name: &str) -> (argv: Vec<String>)
    ensures
        argv.deep_view() == command_line(step, cidr@, name@),
{
    let mut argv: Vec<String> = Vec::new();
    argv.push(String::from_str("ip"));
    match step {
        ConfigStep::AssignAddress => {
            argv.push(String::from_str("addr"));
            argv.push(String::from_str("add"));
            argv.push(String::from_str(cidr));
            argv.push(String::from_str("dev"));
            argv.push(String::from_str(name));
        },
        ConfigStep::LinkUp => {
            argv.push(String::from_str("link"));
            argv.push(String::from_str("set"));
            argv.push(String::from_str("dev"));
            argv.push(String::from_str(name));
            argv.push(String::from_str("up"));
        },
    }
    assert(argv.deep_view() =~= command_line(step, cidr@, name@));
    argv
}

} // verus!
