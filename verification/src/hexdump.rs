//! Diagnostic rendering of packet bytes, sixteen to a line.

use vstd::prelude::*;
use vstd::string::*;

verus! {

/// Number of bytes rendered on one line.
pub const BYTES_PER_LINE: usize = 16;

/// The upper-case hexadecimal digit for `n`.
pub open spec fn hex_digit(n: int) -> char
    recommends
        0 <= n < 16,
{
    "0123456789ABCDEF"@[n]
}

/// The two digits of one byte, high nibble first.
pub open spec fn hex_pair(byte: u8) -> Seq<char> {
    seq![hex_digit(byte as int / 16), hex_digit(byte as int % 16)]
}

/// The bytes as digit pairs separated by a comma and a space.
pub open spec fn hex_list(bytes: Seq<u8>) -> Seq<char>
    decreases bytes.len(),
{
    if bytes.len() == 0 {
        Seq::empty()
    } else if bytes.len() == 1 {
        hex_pair(bytes[0])
    } else {
        hex_list(bytes.drop_last()) + seq![',', ' '] + hex_pair(bytes.last())
    }
}

/// One rendered line: two spaces of indent, then the bytes between brackets.
pub open spec fn dump_line(bytes: Seq<u8>) -> Seq<char> {
    seq![' ', ' ', '['] + hex_list(bytes) + seq![']']
}

/// Number of lines that `len` bytes take.
pub open spec fn line_count(len: nat) -> nat {
    (len + BYTES_PER_LINE - 1) as nat / (BYTES_PER_LINE as nat)
}

/// The bytes shown on line `index`.
pub open spec fn line_bytes(data: Seq<u8>, index: int) -> Seq<u8>
    recommends
        0 <= index < line_count(data.len()),
{
    let start = index * BYTES_PER_LINE;
    let end = if start + BYTES_PER_LINE <= data.len() {
        start + BYTES_PER_LINE
    } else {
        data.len() as int
    };
    data.subrange(start, end)
}

fn digit(n: u8) -> (s: &'static str)
    requires
        n < 16,
    ensures
        s@ == seq![hex_digit(n as int)],
{
    let digits: &'static str = "0123456789ABCDEF";
    proof {
        reveal_strlit("0123456789ABCDEF");
    }
    let s = digits.substring_ascii(n as usize, n as usize + 1);
    assert(s@ =~= seq![hex_digit(n as int)]);
    s
}

fn render_line(bytes: &[u8], start: usize, end: usize) -> (line: String)
    requires
        start <= end <= bytes@.len(),
    ensures
        line@ == dump_line(bytes@.subrange(start as int, end as int)),
{
    let ghost shown = bytes@.subrange(start as int, end as int);
    let mut line = String::from_str("  [");
    proof {
        reveal_strlit("  [");
        reveal_strlit(", ");
        reveal_strlit("]");
        assert(line@ =~= seq![' ', ' ', '['] + hex_list(shown.take(0)));
    }
    let mut i: usize = start;
    while i < end
        invariant
            start <= i <= end <= bytes@.len(),
            shown == bytes@.subrange(start as int, end as int),
            line@ == seq![' ', ' ', '['] + hex_list(shown.take(i - start)),
            ", "@ == seq![',', ' '],
        decreases end - i,
    {
        let ghost before = shown.take(i - start);
        let ghost after = shown.take(i - start + 1);
        let byte = bytes[i];
        if i > start {
            line.append(", ");
        }
        line.append(digit(byte / 16));
        line.append(digit(byte % 16));
        proof {
            assert(after.drop_last() =~= before);
            assert(after.last() == byte);
            assert(line@ =~= seq![' ', ' ', '['] + hex_list(after));
        }
        i += 1;
    }
    assert(shown.take(end - start) =~= shown);
    line.append("]");
    line
}

/// Renders `data` for the diagnostic log: one line for every sixteen bytes,
/// each byte as two upper-case hexadecimal digits. Empty data gives no line.
pub fn hexdump(data: &[u8]) -> (lines: Vec<String>)
    ensures
        lines@.len() == line_count(data@.len()),
        forall|i: int|
            0 <= i < lines@.len() ==> (#[trigger] lines@[i])@ == dump_line(line_bytes(data@, i)),
{
    let mut lines: Vec<String> = Vec::new();
    let len: usize = data.len();
    let mut start: usize = 0;
    while start < len
        invariant
            len == data@.len(),
            start <= len,
            start % BYTES_PER_LINE == 0 || start == len,
            lines@.len() == line_count(start as nat),
            forall|i: int|
                0 <= i < lines@.len() ==> (#[trigger] lines@[i])@ == dump_line(
                    line_bytes(data@, i),
                ),
        decreases len - start,
    {
        let end: usize = if len - start >= BYTES_PER_LINE {
            start + BYTES_PER_LINE
        } else {
            len
        };
        let line = render_line(data, start, end);
        assert(data@.subrange(start as int, end as int) == line_bytes(data@, lines@.len() as int));
        lines.push(line);
        start = end;
    }
    lines
}

} // verus!
