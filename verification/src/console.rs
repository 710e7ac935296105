//! Text helpers of the diagnostic console and the turns of the echo program.

use vstd::prelude::*;

verus! {

/// What the echo program does with the console.
#[derive(Clone, Copy, PartialEq, Eq, Structural, Debug)]
pub enum EchoAction {
    /// Print the prompt, `"> "`.
    PrintPrompt,
    /// Read one line.
    ReadLine,
    /// Print the line that was read.
    PrintLine,
    /// Print a line feed.
    PrintNewline,
}

/// The action that follows `action` in the echo program.
pub open spec fn echo_next(action: EchoAction) -> EchoAction {
    match action {
        EchoAction::PrintPrompt => EchoAction::ReadLine,
        EchoAction::ReadLine => EchoAction::PrintLine,
        EchoAction::PrintLine => EchoAction::PrintNewline,
        EchoAction::PrintNewline => EchoAction::PrintPrompt,
    }
}

/// One turn of the echo program: given the action that was carried out, the
/// one to carry out next. The program starts with `PrintPrompt` and never
/// ends.
pub fn prog_echo(done: EchoAction) -> (next: EchoAction)
    ensures
        next == echo_next(done),
{
    match done {
        EchoAction::PrintPrompt => EchoAction::ReadLine,
        EchoAction::ReadLine => EchoAction::PrintLine,
        EchoAction::PrintLine => EchoAction::PrintNewline,
        EchoAction::PrintNewline => EchoAction::PrintPrompt,
    }
}

/// Reading a line is the prompt's business; this does nothing.
pub fn readln() {
}

/// Whether a byte ends a line: NUL, line feed or carriage return.
pub open spec fn ends_line(byte: u8) -> bool {
    byte == 0 || byte == 0x0A || byte == 0x0D
}

/// Tests whether a byte ends a line.
pub fn is_line_end(byte: u8) -> (r: bool)
    ensures
        r == ends_line(byte),
{
    byte == 0 || byte == 0x0A || byte == 0x0D
}

/// Length of the line at the start of `buf`: the index of the first byte
/// that ends a line, or the length of `buf` where there is none.
pub fn line_length(buf: &[u8]) -> (len: usize)
    ensures
        len <= buf@.len(),
        forall|i: int| 0 <= i < len ==> !ends_line(#[trigger] buf@[i]),
        len < buf@.len() ==> ends_line(buf@[len as int]),
{
    let mut len: usize = 0;
    while len < buf.len() && !is_line_end(buf[len])
        invariant
            len <= buf@.len(),
            forall|i: int| 0 <= i < len ==> !ends_line(#[trigger] buf@[i]),
        decreases buf@.len() - len,
    {
        len = len + 1;
    }
    len
}

/// The lower-case hexadecimal digit of a value below 16.
pub open spec fn hex_char_of(nibble: u32) -> u8 {
    if nibble < 10 {
        (0x30 + nibble) as u8
    } else {
        (0x61 + nibble - 10) as u8
    }
}

/// The `i`-th group of four bits of `value`, counted from the top.
pub open spec fn nibble_of(value: u32, i: int) -> u32 {
    (value / pow16(7 - i)) % 16
}

/// 16 to the power `n`.
pub open spec fn pow16(n: int) -> u32
    decreases n,
{
    if n <= 0 {
        1
    } else {
        (16 * pow16(n - 1)) as u32
    }
}

/// The hexadecimal digit of a value below 16.
pub fn hex_char(nibble: u32) -> (c: u8)
    requires
        nibble < 16,
    ensures
        c == hex_char_of(nibble),
{
    if nibble < 10 {
        (0x30 + nibble) as u8
    } else {
        (0x61 + nibble - 10) as u8
    }
}

/// The eight hexadecimal digits of `value`, the most significant first.
pub fn hex_digits(value: u32) -> (digits: [u8; 8])
    ensures
        forall|i: int| 0 <= i < 8 ==> #[trigger] digits@[i] == hex_char_of(nibble_of(value, i)),
{
    assert(forall|k: u32| #![auto] k < 32 ==> (value >> k) & 0xf < 16 && (value >> k) & 0xf == (
    value >> k) % 16) by (bit_vector);
    assert(value >> 28 == value / 0x1000_0000 && value >> 24 == value / 0x100_0000 && value >> 20
        == value / 0x10_0000 && value >> 16 == value / 0x1_0000 && value >> 12 == value / 0x1000
        && value >> 8 == value / 0x100 && value >> 4 == value / 0x10 && value >> 0 == value / 1)
        by (bit_vector);
    assert(pow16(0) == 1 && pow16(1) == 0x10 && pow16(2) == 0x100 && pow16(3) == 0x1000 && pow16(4)
        == 0x1_0000 && pow16(5) == 0x10_0000 && pow16(6) == 0x100_0000 && pow16(7)
        == 0x1000_0000) by {
        reveal_with_fuel(pow16, 9);
    }
    [
        hex_char((value >> 28) & 0xf),
        hex_char((value >> 24) & 0xf),
        hex_char((value >> 20) & 0xf),
        hex_char((value >> 16) & 0xf),
        hex_char((value >> 12) & 0xf),
        hex_char((value >> 8) & 0xf),
        hex_char((value >> 4) & 0xf),
        hex_char((value >> 0) & 0xf),
    ]
}

/// The digit that stands for a source line below 10; none for a longer
/// number.
pub fn line_digit(line: u32) -> (digit: Option<u8>)
    ensures
        line < 10 ==> digit == Some((0x30 + line) as u8),
        line >= 10 ==> digit is None,
{
    if line < 10 {
        Some((0x30 + line) as u8)
    } else {
        None
    }
}

} // verus!
