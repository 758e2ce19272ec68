//! Byte streams feeding the decoder: a cursor abstraction together with the
//! little-endian read helpers used for displacement and immediate fields.

use vstd::prelude::*;

verus! {

/// What a byte cursor reads at `pos`: the next byte, or nothing at the end.
pub open spec fn spec_read_u8(data: Seq<u8>, pos: int) -> (Option<u8>, int) {
    if 0 <= pos < data.len() {
        (Some(data[pos]), pos + 1)
    } else {
        (None, pos)
    }
}

/// Little-endian 16-bit value assembled from two bytes.
pub open spec fn word_le(lo: u8, hi: u8) -> u16 {
    (lo + hi * 0x100) as u16
}

/// What two consecutive cursor reads yield: a little-endian word when two
/// bytes remain, otherwise nothing, the cursor stopping where input ran out.
pub open spec fn spec_read_u16(data: Seq<u8>, pos: int) -> (Option<u16>, int) {
    let (lo, pos1) = spec_read_u8(data, pos);
    let (hi, pos2) = spec_read_u8(data, pos1);
    if lo is Some && hi is Some {
        (Some(word_le(lo->0, hi->0)), pos2)
    } else {
        (None, pos2)
    }
}

/// A stream of instruction bytes.  `bytes` and `position` model the whole
/// input and the cursor; reading past the end yields `None` rather than
/// failing.
pub trait DataIterator: Sized {
    spec fn bytes(&self) -> Seq<u8>;

    spec fn position(&self) -> int;

    spec fn wf(&self) -> bool;

    /// The next byte without moving the cursor.
    fn peek(&self) -> (r: Option<u8>)
        requires
            self.wf(),
        ensures
            r == spec_read_u8(self.bytes(), self.position()).0,
    ;

    /// The next byte, moving the cursor past it.
    fn consume(&mut self) -> (r: Option<u8>)
        requires
            old(self).wf(),
        ensures
            final(self).wf(),
            final(self).bytes() == old(self).bytes(),
            (r, final(self).position()) == spec_read_u8(old(self).bytes(), old(self).position()),
    ;

    /// Move the cursor past the next byte, if any.
    fn advance(&mut self)
        requires
            old(self).wf(),
        ensures
            final(self).wf(),
            final(self).bytes() == old(self).bytes(),
            final(self).position() == spec_read_u8(old(self).bytes(), old(self).position()).1,
    ;
}

/// An owned byte buffer with a cursor.
pub struct Data {
    pub data: Vec<u8>,
    pub current_position: usize,
}

impl Data {
    /// An empty stream.
    pub fn new() -> (r: Self)
        ensures
            r.wf(),
            r.bytes() == Seq::<u8>::empty(),
            r.position() == 0,
    {
        Self { data: Vec::new(), current_position: 0 }
    }

    /// A stream over the given bytes, cursor at the start.
    pub fn from_bytes(data: Vec<u8>) -> (r: Self)
        ensures
            r.wf(),
            r.bytes() == data@,
            r.position() == 0,
    {
        Self { data, current_position: 0 }
    }
}

impl DataIterator for Data {
    open spec fn bytes(&self) -> Seq<u8> {
        self.data@
    }

    open spec fn position(&self) -> int {
        self.current_position as int
    }

    open spec fn wf(&self) -> bool {
        self.current_position <= self.data.len()
    }

    fn peek(&self) -> (r: Option<u8>) {
        if self.current_position < self.data.len() {
            Some(self.data[self.current_position])
        } else {
            None
        }
    }

    fn consume(&mut self) -> (r: Option<u8>) {
        if self.current_position < self.data.len() {
            let b = self.data[self.current_position];
            self.current_position = self.current_position + 1;
            Some(b)
        } else {
            None
        }
    }

    fn advance(&mut self) {
        if self.current_position < self.data.len() {
            self.current_position = self.current_position + 1;
        }
    }
}

/// One byte from the stream.
pub fn it_read_u8<It: DataIterator>(it: &mut It) -> (r: Option<u8>)
    requires
        old(it).wf(),
    ensures
        final(it).wf(),
        final(it).bytes() == old(it).bytes(),
        (r, final(it).position()) == spec_read_u8(old(it).bytes(), old(it).position()),
{
    it.consume()
}

/// A little-endian word from the stream: low byte first.
pub fn it_read_u16<It: DataIterator>(it: &mut It) -> (r: Option<u16>)
    requires
        old(it).wf(),
    ensures
        final(it).wf(),
        final(it).bytes() == old(it).bytes(),
        (r, final(it).position()) == spec_read_u16(old(it).bytes(), old(it).position()),
{
    let lo = it.consume();
    let hi = it.consume();
    match (lo, hi) {
        (Some(lo), Some(hi)) => Some(lo as u16 + hi as u16 * 0x100),
        _ => None,
    }
}

} // verus!
