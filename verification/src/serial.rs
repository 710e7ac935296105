//! The line typed at the serial console, kept in a buffer of fixed capacity.

use vstd::prelude::*;

verus! {

/// Number of bytes that a line can hold.
pub const LINE_CAPACITY: usize = 512;

/// The byte that ends a line: carriage return.
pub const CARRIAGE_RETURN: u8 = 0x0D;

/// The line typed so far. It holds a `heapless::Vec<u8, 512>`, whose storage
/// type cannot be named from outside its crate; what it holds is known
/// through `line_bytes` alone.
#[verifier::external_body]
pub struct LineBuffer {
    inner: heapless::Vec<u8, 512>,
}

/// The bytes in a line buffer, in the order in which they were typed.
pub uninterp spec fn line_bytes(line: LineBuffer) -> Seq<u8>;

/// What became of a byte that was typed.
#[derive(Debug, PartialEq, Eq)]
pub enum Keyed {
    /// The byte was added to the line and is to be echoed.
    Echoed,
    /// The byte ended the line: `line` is what was typed before it, and the
    /// buffer is empty again.
    Ended { line: Vec<u8> },
    /// The line is full: the byte was not added, and what follows it in the
    /// same read is to be dropped.
    Dropped,
}

/// `heapless::Vec::new`: a vector without elements.
#[verifier::external_body]
fn vec_new() -> (line: LineBuffer)
    ensures
        line_bytes(line) == Seq::<u8>::empty(),
{
    LineBuffer { inner: heapless::Vec::new() }
}

/// `heapless::Vec::push`: below the capacity of 512 the byte is appended
/// and the call gives `Ok`; at the capacity nothing changes and the byte
/// comes back in `Err`.
#[verifier::external_body]
fn vec_push(line: &mut LineBuffer, byte: u8) -> (r: Result<(), u8>)
    ensures
        line_bytes(*old(line)).len() < LINE_CAPACITY ==> r is Ok && line_bytes(*final(line))
            == line_bytes(*old(line)).push(byte),
        line_bytes(*old(line)).len() >= LINE_CAPACITY ==> r is Err && r->Err_0 == byte
            && line_bytes(*final(line)) == line_bytes(*old(line)),
{
    line.inner.push(byte)
}

/// `heapless::Vec::clear`: no element is left.
#[verifier::external_body]
fn vec_clear(line: &mut LineBuffer)
    ensures
        line_bytes(*final(line)) == Seq::<u8>::empty(),
{
    line.inner.clear()
}

/// `heapless::Vec::as_slice`: the elements, in order.
#[verifier::external_body]
fn vec_as_slice(line: &LineBuffer) -> (s: &[u8])
    ensures
        s@ == line_bytes(*line),
{
    line.inner.as_slice()
}

impl View for LineBuffer {
    type V = Seq<u8>;

    open spec fn view(&self) -> Seq<u8> {
        line_bytes(*self)
    }
}

impl LineBuffer {
    /// An empty line.
    pub fn new() -> (line: LineBuffer)
        ensures
            line@ == Seq::<u8>::empty(),
    {
        vec_new()
    }

    /// A copy of the bytes typed so far.
    pub fn contents(&self) -> (bytes: Vec<u8>)
        ensures
            bytes@ == self@,
    {
        let slice = vec_as_slice(self);
        let mut bytes: Vec<u8> = Vec::new();
        let mut i: usize = 0;
        while i < slice.len()
            invariant
                i <= slice@.len(),
                bytes@ == slice@.take(i as int),
            decreases slice@.len() - i,
        {
            bytes.push(slice[i]);
            assert(slice@.take(i as int + 1) == slice@.take(i as int).push(slice@[i as int]));
            i = i + 1;
        }
        assert(slice@.take(slice@.len() as int) == slice@);
        bytes
    }

    /// Takes one byte that was typed. A carriage return ends the line: the
    /// line comes back and the buffer is emptied. Any other byte is added to
    /// the line, unless the line is full already.
    pub fn key(&mut self, byte: u8) -> (r: Keyed)
        ensures
            byte == CARRIAGE_RETURN ==> r is Ended && r->line@ == old(self)@ && final(self)@
                == Seq::<u8>::empty(),
            byte != CARRIAGE_RETURN && old(self)@.len() < LINE_CAPACITY ==> r == Keyed::Echoed
                && final(self)@ == old(self)@.push(byte),
            byte != CARRIAGE_RETURN && old(self)@.len() >= LINE_CAPACITY ==> r == Keyed::Dropped
                && final(self)@ == old(self)@,
    {
        if byte == CARRIAGE_RETURN {
            let line = self.contents();
            vec_clear(self);
            return Keyed::Ended { line };
        }
        match vec_push(self, byte) {
            Ok(_) => Keyed::Echoed,
            Err(_) => Keyed::Dropped,
        }
    }
}

} // verus!
