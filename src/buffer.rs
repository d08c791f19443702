//! The message buffer that a host callback may hand over with an error code.
use vstd::prelude::*;

verus! {

/// An optional message handed over by the host side.
///
/// An absent buffer and a present but empty one both mean that no message was
/// provided.
/// Ownership of the bytes passes to the consumer exactly once: [`Buffer::consume`]
/// takes the buffer by value, so a second consumption of the same buffer is
/// rejected at compile time, and the backing memory is released when the bytes
/// that it returns are dropped.
#[derive(Debug)]
pub enum Buffer {
    /// No message was provided.
    Absent,
    /// A message, assumed to be UTF-8.
    Present(Vec<u8>),
}

impl View for Buffer {
    type V = Option<Seq<u8>>;

    open spec fn view(&self) -> Option<Seq<u8>> {
        match self {
            Buffer::Absent => None,
            Buffer::Present(b) => Some(b@),
        }
    }
}

impl Buffer {
    /// Whether the buffer holds a message: it is present and not empty.
    pub fn has_message(&self) -> (r: bool)
        ensures
            r <==> self.carries_message(),
    {
        match self {
            Buffer::Absent => false,
            Buffer::Present(b) => b.len() > 0,
        }
    }

    /// The buffer is present and holds at least one byte.
    pub open spec fn carries_message(&self) -> bool {
        self@ is Some && self@->0.len() > 0
    }

    /// Takes the bytes out of a present buffer, consuming it.
    pub fn consume(self) -> (r: Vec<u8>)
        requires
            self@ is Some,
        ensures
            Some(r@) == self@,
    {
        match self {
            Buffer::Present(b) => b,
            Buffer::Absent => Vec::new(),
        }
    }
}

/// What `String::from_utf8_lossy` makes of a sequence of bytes: the UTF-8
/// decoding, with each invalid sequence replaced by U+FFFD.
pub uninterp spec fn lossy_utf8(b: Seq<u8>) -> Seq<char>;

/// Relies on `String::from_utf8_lossy`: it never fails, and its result depends
/// on the bytes alone.
#[verifier::external_body]
pub(crate) fn decode_lossy(b: &Vec<u8>) -> (r: String)
    ensures
        r@ == lossy_utf8(b@),
{
    String::from_utf8_lossy(b.as_slice()).into_owned()
}

} // verus!
