//! The one-shot handshake: the client sends its address on a line of its own
//! and the server answers with a fixed acknowledgment line. The address is
//! informational; nothing later is held against it.

use crate::error::TunnelError;
use vstd::prelude::*;
use vstd::string::*;

verus! {

/// A complete line: text that ends with a newline. Text read up to the end
/// of the stream without one is a line cut short by closure.
pub open spec fn is_line(text: Seq<char>) -> bool {
    text.len() > 0 && text.last() == '\n'
}

/// The acknowledgment that the server sends.
pub open spec fn ack_text() -> Seq<char> {
    seq!['O', 'K', '\n']
}

/// The line by which a client declares `address`.
pub fn hello_line(address: &str) -> (line: String)
    ensures
        line@ == address@.push('\n'),
        is_line(line@),
{
    let mut line = String::from_str(address);
    proof {
        reveal_strlit("\n");
    }
    line.append("\n");
    assert(line@ =~= address@.push('\n'));
    line
}

/// The server's reply to a hello.
pub fn ack_line() -> (line: String)
    ensures
        line@ == ack_text(),
        is_line(line@),
{
    proof {
        reveal_strlit("OK\n");
    }
    let line = String::from_str("OK\n");
    assert(line@ =~= ack_text());
    line
}

/// Server side: takes the text read from the client and yields the address
/// it declares, which is the line without its newline. Text that is no
/// complete line means the connection closed too early.
pub fn read_hello(text: &str) -> (peer: Result<String, TunnelError>)
    ensures
        is_line(text@) ==> peer is Ok && peer->Ok_0@ == text@.drop_last(),
        !is_line(text@) ==> peer == Err::<String, TunnelError>(TunnelError::HandshakeFailed),
{
    let len = text.unicode_len();
    if len == 0 || text.get_char(len - 1) != '\n' {
        return Err(TunnelError::HandshakeFailed);
    }
    let address = text.substring_char(0, len - 1);
    let peer = String::from_str(address);
    assert(peer@ =~= text@.drop_last());
    Ok(peer)
}

/// Client side: takes the text read in answer to the hello. Any complete
/// line is accepted, whatever it says; text cut short by closure is not.
pub fn read_ack(text: &str) -> (accepted: Result<(), TunnelError>)
    ensures
        is_line(text@) ==> accepted == Ok::<(), TunnelError>(()),
        !is_line(text@) ==> accepted == Err::<(), TunnelError>(TunnelError::HandshakeFailed),
{
    let len = text.unicode_len();
    if len == 0 || text.get_char(len - 1) != '\n' {
        Err(TunnelError::HandshakeFailed)
    } else {
        Ok(())
    }
}

/// A server that reads what a client's hello line carries learns the
/// declared address, and the acknowledgment it sends is accepted.
pub proof fn handshake_completes(address: Seq<char>)
    ensures
        is_line(address.push('\n')),
        address.push('\n').drop_last() == address,
        is_line(ack_text()),
{
    assert(address.push('\n').drop_last() =~= address);
}

} // verus!
