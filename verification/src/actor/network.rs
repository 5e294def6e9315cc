//! The actors that stand for a UDP socket: their messages and errors, and
//! the reading side of a socket framed by the LIFX codec.
use vstd::prelude::*;

use crate::lifx::codec::{
    decode_eof_outcome, decode_rest, unpack_panics, unpack_would_panic, FrameAddress, LifxCodec,
    LifxError,
};
use crate::lifx::LifxMessage;

verus! {

#[verifier::external_type_specification]
#[verifier::external_body]
pub struct ExIoError(std::io::Error);

#[derive(Debug)]
pub enum CreationError {
    IO(std::io::Error),
}

/// What a socket actor is asked to do.
#[derive(Debug, Clone)]
pub enum Msg<I> {
    /// Write the item to the socket's peer.
    Write(I),
}

/// The size of the buffer that incoming datagrams are read into.
pub const INITIAL_RD_CAPACITY: usize = 65536;

/// The size of the buffer that outgoing datagrams are encoded into.
pub const INITIAL_WR_CAPACITY: usize = 8192;

/// What reading a framed socket comes to.
#[derive(Debug)]
pub enum ReadStep<A> {
    /// A datagram was decoded: its address, its message, and where it came
    /// from.
    Frame(FrameAddress, LifxMessage, A),
    /// Decoding failed.
    Error(LifxError),
    /// Everything received is decoded: the next datagram is due, and goes
    /// to `received`.
    Receive,
}

/// The reading side of a UDP socket framed by the LIFX codec: the bytes of
/// the last datagram that are not decoded yet, and where it came from.
pub struct ReadFramedUdp<A> {
    codec: LifxCodec,
    rd: Vec<u8>,
    is_readable: bool,
    current_addr: Option<A>,
}

impl<A: Copy> ReadFramedUdp<A> {
    /// Whether a datagram is being decoded, the address it came from being
    /// then known, or nothing is left to decode.
    pub closed spec fn wf(&self) -> bool {
        &&& self.is_readable ==> self.current_addr is Some
        &&& !self.is_readable ==> self.rd@.len() == 0
    }

    /// The bytes not decoded yet.
    pub closed spec fn buffer(&self) -> Seq<u8> {
        self.rd@
    }

    /// Whether bytes of the last datagram are still to be decoded.
    pub closed spec fn readable(&self) -> bool {
        self.is_readable
    }

    /// Where the last datagram came from.
    pub closed spec fn address(&self) -> Option<A> {
        self.current_addr
    }

    /// Nothing received yet.
    pub fn new() -> (r: Self)
        ensures
            r.wf(),
            !r.readable(),
            r.buffer() == Seq::<u8>::empty(),
            r.address() is None,
    {
        ReadFramedUdp { codec: LifxCodec, rd: Vec::new(), is_readable: false, current_addr: None }
    }

    /// Whether the next `poll_next` would fail an assertion of the frame
    /// reader (see `unpack_panics`).
    pub fn would_panic(&self) -> (r: bool)
        ensures
            r == (self.readable() && unpack_panics(self.buffer())),
    {
        self.is_readable && unpack_would_panic(self.rd.as_slice())
    }

    /// Decodes the next datagram of what was received. When nothing is
    /// left to decode, the buffer is emptied and the next datagram is due.
    pub fn poll_next(&mut self) -> (r: ReadStep<A>)
        requires
            old(self).wf(),
            old(self).readable() ==> !unpack_panics(old(self).buffer()),
        ensures
            final(self).wf(),
            final(self).address() == old(self).address(),
            !old(self).readable() ==> r is Receive && final(self).buffer() == Seq::<u8>::empty()
                && !final(self).readable(),
            old(self).readable() ==> match r {
                ReadStep::Frame(a, m, from) => {
                    &&& decode_eof_outcome(old(self).buffer(), Ok(Some((a, m))))
                    &&& old(self).address() == Some(from)
                    &&& final(self).buffer() == decode_rest(old(self).buffer())
                    &&& final(self).readable()
                },
                ReadStep::Error(e) => {
                    &&& decode_eof_outcome(old(self).buffer(), Err(e))
                    &&& final(self).buffer() == decode_rest(old(self).buffer())
                    &&& final(self).readable()
                },
                ReadStep::Receive => {
                    &&& decode_eof_outcome(old(self).buffer(), Ok(None))
                    &&& final(self).buffer() == Seq::<u8>::empty()
                    &&& !final(self).readable()
                },
            },
    {
        if self.is_readable {
            match self.codec.decode_eof(&mut self.rd) {
                Ok(Some((a, m))) => {
                    let from = match self.current_addr {
                        Some(from) => from,
                        None => {
                            return ReadStep::Receive;
                        },
                    };
                    return ReadStep::Frame(a, m, from);
                },
                Ok(None) => {
                    self.is_readable = false;
                    self.rd = Vec::new();
                },
                Err(e) => {
                    return ReadStep::Error(e);
                },
            }
        }
        ReadStep::Receive
    }

    /// A datagram came from `from`: its bytes are what is to be decoded.
    pub fn received(&mut self, datagram: Vec<u8>, from: A)
        requires
            old(self).wf(),
            !old(self).readable(),
        ensures
            final(self).wf(),
            final(self).readable(),
            final(self).buffer() == datagram@,
            final(self).address() == Some(from),
    {
        self.rd = datagram;
        self.current_addr = Some(from);
        self.is_readable = true;
    }
}

} // verus!
