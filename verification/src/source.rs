//! Slicing a continuous byte stream into fixed-size frames.
//!
//! The decoder writes frames back to back with no delimiter; boundaries are
//! predicted from the dimensions alone. `FrameSource` owns one reusable
//! frame buffer and accumulates bytes into it chunk by chunk until a full
//! frame is loaded, then hands out the pixel region with the header
//! stripped. `ByteStream` is an in-memory stream the accumulation can be
//! driven from; a frontend reading a real pipe feeds chunks directly.

use vstd::prelude::*;
use crate::format::{
    frame_byte_length, header_length, spec_frame_byte_length, spec_header_length,
};

verus! {

/// An in-memory byte stream, read front to back.
pub struct ByteStream {
    data: Vec<u8>,
    pos: usize,
}

impl ByteStream {
    /// The cursor sits inside the underlying buffer.
    pub closed spec fn well_formed(&self) -> bool {
        self.pos <= self.data@.len()
    }

    /// The bytes not yet read.
    pub closed spec fn remaining(&self) -> Seq<u8> {
        self.data@.subrange(self.pos as int, self.data@.len() as int)
    }

    /// Wraps a fully buffered stream positioned at its start.
    pub fn new(data: Vec<u8>) -> (s: ByteStream)
        ensures
            s.well_formed(),
            s.remaining() == data@,
    {
        let s = ByteStream { data, pos: 0 };
        proof {
            assert(s.remaining() =~= s.data@);
        }
        s
    }

    /// Number of unread bytes.
    pub fn remaining_len(&self) -> (n: usize)
        requires
            self.well_formed(),
        ensures
            n == self.remaining().len(),
    {
        self.data.len() - self.pos
    }

    /// Reads up to `n` bytes: exactly `n` when that many remain, otherwise
    /// everything that remains (possibly nothing).
    pub fn read_up_to(&mut self, n: usize) -> (chunk: Vec<u8>)
        requires
            old(self).well_formed(),
        ensures
            final(self).well_formed(),
            n <= old(self).remaining().len() ==> chunk@.len() == n,
            n > old(self).remaining().len() ==> chunk@.len() == old(self).remaining().len(),
            chunk@ == old(self).remaining().take(chunk@.len() as int),
            final(self).remaining() == old(self).remaining().skip(chunk@.len() as int),
    {
        let avail: usize = self.data.len() - self.pos;
        let k: usize = if n < avail {
            n
        } else {
            avail
        };
        let end: usize = self.pos + k;
        let mut chunk: Vec<u8> = Vec::new();
        let mut j: usize = self.pos;
        while j < end
            invariant
                self.pos <= j <= end,
                end == self.pos + k,
                k <= self.data@.len() - self.pos,
                self.data@ == old(self).data@,
                self.pos == old(self).pos,
                chunk@ == self.data@.subrange(self.pos as int, j as int),
            decreases end - j,
        {
            chunk.push(self.data[j]);
            proof {
                assert(chunk@ =~= self.data@.subrange(self.pos as int, j + 1));
            }
            j += 1;
        }
        self.pos = self.pos + k;
        proof {
            assert(chunk@ =~= old(self).remaining().take(k as int));
            assert(self.remaining() =~= old(self).remaining().skip(k as int));
        }
        chunk
    }
}

/// Accumulates successive fixed-size frame payloads from a continuous byte
/// stream, reusing one frame buffer, and hands frames out with the header
/// stripped.
pub struct FrameSource {
    width: usize,
    height: usize,
    header_len: usize,
    frame_len: usize,
    frame_buffer: Vec<u8>,
}

impl FrameSource {
    /// Width of a frame in pixels (one character cell per pixel).
    pub closed spec fn width(&self) -> nat {
        self.width as nat
    }

    /// Height of a frame in pixels.
    pub closed spec fn height(&self) -> nat {
        self.height as nat
    }

    /// Bytes of the current frame accumulated so far.
    pub closed spec fn loaded(&self) -> Seq<u8> {
        self.frame_buffer@
    }

    /// The cached header and frame lengths match the dimensions, and the
    /// buffer never outgrows one frame.
    pub closed spec fn well_formed(&self) -> bool {
        &&& 1 <= self.width
        &&& 1 <= self.height
        &&& self.header_len == spec_header_length(self.width as nat, self.height as nat)
        &&& self.frame_len == spec_frame_byte_length(self.width as nat, self.height as nat)
        &&& self.frame_buffer@.len() <= self.frame_len
    }

    /// Total bytes of one frame of this source.
    pub open spec fn spec_frame_len(&self) -> nat {
        spec_frame_byte_length(self.width(), self.height())
    }

    /// Header bytes of one frame of this source.
    pub open spec fn spec_header_len(&self) -> nat {
        spec_header_length(self.width(), self.height())
    }

    /// Dimensions and buffer state carried over by a mutating call.
    pub open spec fn same_shape(&self, other: &FrameSource) -> bool {
        self.width() == other.width() && self.height() == other.height()
    }

    /// A source for frames of the given dimensions, with an empty buffer.
    pub fn new(width: usize, height: usize) -> (s: FrameSource)
        requires
            1 <= width,
            1 <= height,
            spec_frame_byte_length(width as nat, height as nat) <= usize::MAX,
        ensures
            s.well_formed(),
            s.width() == width,
            s.height() == height,
            s.loaded().len() == 0,
    {
        let header_len = header_length(width, height);
        let frame_len = frame_byte_length(width, height);
        FrameSource { width, height, header_len, frame_len, frame_buffer: Vec::new() }
    }

    /// Total bytes of one frame.
    pub fn frame_length(&self) -> (n: usize)
        requires
            self.well_formed(),
        ensures
            n == self.spec_frame_len(),
    {
        self.frame_len
    }

    /// Bytes of the textual header at the front of each frame.
    pub fn header_len(&self) -> (n: usize)
        requires
            self.well_formed(),
        ensures
            n == self.spec_header_len(),
    {
        self.header_len
    }

    /// Clears the reusable buffer to start accumulating the next frame.
    pub fn begin_frame(&mut self)
        requires
            old(self).well_formed(),
        ensures
            final(self).well_formed(),
            final(self).same_shape(old(self)),
            final(self).loaded().len() == 0,
    {
        self.frame_buffer.clear();
    }

    /// How many bytes the current frame still lacks.
    pub fn missing(&self) -> (n: usize)
        requires
            self.well_formed(),
        ensures
            n == self.spec_frame_len() - self.loaded().len(),
    {
        self.frame_len - self.frame_buffer.len()
    }

    /// Appends one chunk read from the stream to the current frame.
    pub fn push_chunk(&mut self, chunk: &Vec<u8>)
        requires
            old(self).well_formed(),
            chunk@.len() <= old(self).spec_frame_len() - old(self).loaded().len(),
        ensures
            final(self).well_formed(),
            final(self).same_shape(old(self)),
            final(self).loaded() == old(self).loaded() + chunk@,
    {
        self.frame_buffer.extend_from_slice(chunk.as_slice());
        proof {
            assert(self.frame_buffer@ =~= old(self).frame_buffer@ + chunk@);
        }
    }

    /// Whether a full frame has been accumulated.
    pub fn frame_complete(&self) -> (r: bool)
        requires
            self.well_formed(),
        ensures
            r == (self.loaded().len() == self.spec_frame_len()),
    {
        self.frame_buffer.len() == self.frame_len
    }

    /// The pixel region of the completed frame: everything past the header.
    /// The copy leaves the reusable buffer ready for the next cycle.
    pub fn pixel_bytes(&self) -> (pixels: Vec<u8>)
        requires
            self.well_formed(),
            self.loaded().len() == self.spec_frame_len(),
        ensures
            pixels@ == self.loaded().subrange(
                self.spec_header_len() as int,
                self.spec_frame_len() as int,
            ),
            pixels@.len() == self.width() * self.height() * 3,
    {
        let mut pixels: Vec<u8> = Vec::new();
        let mut i: usize = self.header_len;
        while i < self.frame_len
            invariant
                self.header_len <= i <= self.frame_len,
                self.frame_buffer@.len() == self.frame_len,
                self.frame_len == spec_frame_byte_length(self.width as nat, self.height as nat),
                self.header_len == spec_header_length(self.width as nat, self.height as nat),
                pixels@ == self.frame_buffer@.subrange(self.header_len as int, i as int),
            decreases self.frame_len - i,
        {
            pixels.push(self.frame_buffer[i]);
            proof {
                assert(pixels@ =~= self.frame_buffer@.subrange(
                    self.header_len as int,
                    i + 1,
                ));
            }
            i += 1;
        }
        pixels
    }

    /// Reads the next frame out of an in-memory stream.
    ///
    /// When at least one full frame remains, consumes exactly one frame and
    /// returns its pixel bytes with the header stripped. A stream with
    /// fewer bytes than one frame — empty or truncated — is consumed to its
    /// end and treated as the end of playback.
    pub fn next_frame(&mut self, stream: &mut ByteStream) -> (r: Option<Vec<u8>>)
        requires
            old(self).well_formed(),
            old(stream).well_formed(),
        ensures
            final(self).well_formed(),
            final(stream).well_formed(),
            final(self).same_shape(old(self)),
            old(stream).remaining().len() >= old(self).spec_frame_len() ==> {
                &&& r matches Some(pixels) && pixels@ == old(stream).remaining().subrange(
                    old(self).spec_header_len() as int,
                    old(self).spec_frame_len() as int,
                )
                &&& final(stream).remaining() == old(stream).remaining().skip(
                    old(self).spec_frame_len() as int,
                )
                &&& final(self).loaded() == old(stream).remaining().take(
                    old(self).spec_frame_len() as int,
                )
            },
            old(stream).remaining().len() < old(self).spec_frame_len() ==> {
                &&& r is None
                &&& final(stream).remaining().len() == 0
                &&& final(self).loaded().len() == 0
            },
    {
        self.begin_frame();
        let need = self.missing();
        let chunk = stream.read_up_to(need);
        if chunk.len() == need {
            self.push_chunk(&chunk);
            proof {
                assert(self.loaded() =~= old(stream).remaining().take(need as int));
                assert(self.loaded().subrange(
                    self.spec_header_len() as int,
                    self.spec_frame_len() as int,
                ) =~= old(stream).remaining().subrange(
                    self.spec_header_len() as int,
                    self.spec_frame_len() as int,
                ));
            }
            Some(self.pixel_bytes())
        } else {
            None
        }
    }
}

} // verus!
