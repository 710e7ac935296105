//! Registers of the QSPI memory controller and of the XIP controller that the
//! bring-up touches: their names, the bits used, and the words written.

use vstd::prelude::*;
use crate::timing::TimingParams;

verus! {

/// A register of the memory controller, or the control register of the XIP
/// controller.
#[derive(Clone, Copy, PartialEq, Eq, Structural, Debug)]
pub enum Reg {
    /// Direct mode control and status.
    DirectCsr,
    /// Direct mode transmit queue.
    DirectTx,
    /// Direct mode receive queue.
    DirectRx,
    /// Timing of the second chip select.
    M1Timing,
    /// Read transfer format of the second chip select.
    M1Rfmt,
    /// Read command of the second chip select.
    M1Rcmd,
    /// Write transfer format of the second chip select.
    M1Wfmt,
    /// Write command of the second chip select.
    M1Wcmd,
    /// Control register of the XIP controller.
    XipCtrl,
}

/// Direct mode enable.
pub const CSR_EN: u32 = 0x0000_0001;

/// Direct mode busy flag: a transfer or its cooldown is under way.
pub const CSR_BUSY: u32 = 0x0000_0002;

/// Manual assertion of the second chip select.
pub const CSR_ASSERT_CS1N: u32 = 0x0000_0008;

/// Automatic assertion of the second chip select around each transfer.
pub const CSR_AUTO_CS1N: u32 = 0x0000_0080;

/// Transmit queue empty flag.
pub const CSR_TXEMPTY: u32 = 0x0000_0800;

/// Bit position of the direct mode clock divisor.
pub const CSR_CLKDIV_SHIFT: u32 = 22;

/// Quad width of a direct mode transfer.
pub const TX_IWIDTH_QUAD: u32 = 0x0002_0000;

/// Output enable of a direct mode transfer.
pub const TX_OE: u32 = 0x0008_0000;

/// Keeps the response of a direct mode transfer out of the receive queue.
pub const TX_NOPUSH: u32 = 0x0010_0000;

/// Marks the window of the second chip select writable.
pub const XIP_WRITABLE_M1: u32 = 0x0000_0800;

/// Clock divisor of direct mode while the chip is identified.
pub const PROBE_CLKDIV: u8 = 30;

/// Clock divisor of direct mode while the chip is configured.
pub const SETUP_CLKDIV: u8 = 10;

/// Opcode that puts the chip into quad mode before identification.
pub const OP_QUAD_ENTER: u32 = 0xF5;

/// Opcode that reads the identification bytes.
pub const OP_READ_ID: u32 = 0x9F;

/// Fill byte that clocks a response out.
pub const FILL_BYTE: u32 = 0xFF;

/// Opcode that sets the chip's bus mode before memory-mapped use.
pub const OP_QUAD_SETUP: u32 = 0x35;

/// Opcode of a quad read.
pub const OP_QUAD_READ: u32 = 0xEB;

/// Opcode of a quad write.
pub const OP_QUAD_WRITE: u32 = 0x38;

/// Cooldown field of the timing register: one cycle.
pub const TIMING_COOLDOWN_1: u32 = 0x4000_0000;

/// Page break field of the timing register: every 1024 bytes.
pub const TIMING_PAGEBREAK_1024: u32 = 0x2000_0000;

/// Quad width in each of the five width fields of a format register.
pub const FMT_ALL_QUAD: u32 = 0x0000_02AA;

/// Prefix of eight bits in a format register.
pub const FMT_PREFIX_8: u32 = 0x0000_1000;

/// Twenty-four dummy bits in a format register.
pub const FMT_DUMMY_24: u32 = 0x0006_0000;

/// The field of `width` bits at `shift` in a register word.
pub open spec fn field(word: u32, shift: u32, width: u32) -> u32 {
    (word >> shift) & (((1u32 << width) - 1) as u32)
}

/// The word that turns direct mode on with the given clock divisor, and with
/// automatic chip select where `auto_cs` is set. Every other field is zero.
pub open spec fn direct_enable_word(clkdiv: u8, auto_cs: bool) -> u32 {
    ((clkdiv as u32) << CSR_CLKDIV_SHIFT) | CSR_EN | if auto_cs {
        CSR_AUTO_CS1N
    } else {
        0u32
    }
}

/// The word for the timing register: cooldown of one cycle, a page break
/// every 1024 bytes, and the four parameters, each cut to its field.
pub open spec fn timing_word(t: TimingParams) -> u32 {
    TIMING_COOLDOWN_1 | TIMING_PAGEBREAK_1024 | (((t.max_select as u32) & 0x3f) << 17) | ((
    t.min_deselect & 0x1f) << 12) | ((t.rxdelay & 0x7) << 8) | (t.clkdiv & 0xff)
}

/// The word for the read format register.
pub open spec fn read_format_word() -> u32 {
    FMT_ALL_QUAD | FMT_PREFIX_8 | FMT_DUMMY_24
}

/// The word for the write format register: as for reads, without dummy bits.
pub open spec fn write_format_word() -> u32 {
    FMT_ALL_QUAD | FMT_PREFIX_8
}

/// Builds `direct_enable_word`.
#[inline(always)]
pub fn pack_direct_enable(clkdiv: u8, auto_cs: bool) -> (word: u32)
    ensures
        word == direct_enable_word(clkdiv, auto_cs),
        field(word, 22, 8) == clkdiv,
        word & CSR_EN == CSR_EN,
        word & CSR_AUTO_CS1N != 0 <==> auto_cs,
        word & CSR_ASSERT_CS1N == 0,
{
    let c: u32 = clkdiv as u32;
    let auto_bit: u32 = if auto_cs {
        CSR_AUTO_CS1N
    } else {
        0
    };
    let word: u32 = (c << CSR_CLKDIV_SHIFT) | CSR_EN | auto_bit;
    assert(c < 256 && (auto_bit == 0x80 || auto_bit == 0) ==> (((c << 22) | 1u32 | auto_bit)
        >> 22) & (((1u32 << 8) - 1) as u32) == c && ((c << 22) | 1u32 | auto_bit) & 1 == 1 && ((c
        << 22) | 1u32 | auto_bit) & 0x80 == auto_bit && ((c << 22) | 1u32 | auto_bit) & 8 == 0)
        by (bit_vector);
    word
}

/// Builds `timing_word`. Each parameter reads back from its field, less the
/// bits that the field has no room for.
#[inline(always)]
pub fn pack_timing(t: TimingParams) -> (word: u32)
    ensures
        word == timing_word(t),
        field(word, 30, 2) == 1,
        field(word, 28, 2) == 2,
        field(word, 23, 3) == 0,
        field(word, 17, 6) == t.max_select as u32 % 64,
        field(word, 12, 5) == t.min_deselect % 32,
        field(word, 8, 3) == t.rxdelay % 8,
        field(word, 0, 8) == t.clkdiv % 256,
{
    let ms: u32 = t.max_select as u32;
    let md: u32 = t.min_deselect;
    let rx: u32 = t.rxdelay;
    let cd: u32 = t.clkdiv;
    let word: u32 = TIMING_COOLDOWN_1 | TIMING_PAGEBREAK_1024 | ((ms & 0x3f) << 17) | ((md
        & 0x1f) << 12) | ((rx & 0x7) << 8) | (cd & 0xff);
    assert({
        let w = 0x4000_0000u32 | 0x2000_0000u32 | ((ms & 0x3f) << 17) | ((md & 0x1f) << 12) | ((rx
            & 0x7) << 8) | (cd & 0xff);
        &&& (w >> 30) & (((1u32 << 2) - 1) as u32) == 1
        &&& (w >> 28) & (((1u32 << 2) - 1) as u32) == 2
        &&& (w >> 23) & (((1u32 << 3) - 1) as u32) == 0
        &&& (w >> 17) & (((1u32 << 6) - 1) as u32) == ms % 64
        &&& (w >> 12) & (((1u32 << 5) - 1) as u32) == md % 32
        &&& (w >> 8) & (((1u32 << 3) - 1) as u32) == rx % 8
        &&& (w >> 0) & (((1u32 << 8) - 1) as u32) == cd % 256
    }) by (bit_vector);
    word
}

/// Builds `read_format_word`: quad width throughout, a prefix of eight bits
/// and twenty-four dummy bits.
#[inline(always)]
pub fn pack_read_format() -> (word: u32)
    ensures
        word == read_format_word(),
        word == 0x0006_12AA,
{
    assert(0x0000_02AAu32 | 0x0000_1000u32 | 0x0006_0000u32 == 0x0006_12AAu32) by (bit_vector);
    FMT_ALL_QUAD | FMT_PREFIX_8 | FMT_DUMMY_24
}

/// Builds `write_format_word`: quad width throughout and a prefix of eight
/// bits.
#[inline(always)]
pub fn pack_write_format() -> (word: u32)
    ensures
        word == write_format_word(),
        word == 0x0000_12AA,
{
    assert(0x0000_02AAu32 | 0x0000_1000u32 == 0x0000_12AAu32) by (bit_vector);
    FMT_ALL_QUAD | FMT_PREFIX_8
}

} // verus!
