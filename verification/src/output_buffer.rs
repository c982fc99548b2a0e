//! The reusable output buffer for strings handed back to the host.
//!
//! Variable-length text crosses the boundary without a deallocation
//! callback: each producing call clears the buffer, writes the bytes of
//! the string, and appends one terminating zero byte. The host then
//! reads the length (which excludes the terminator), copies the bytes
//! out, and must do so before the next producing call on the same
//! buffer overwrites them.

use vstd::prelude::*;
use vstd::string::StringSliceAdditionalSpecFns;

verus! {

/// A reusable byte buffer holding the most recently produced string,
/// always zero-terminated once anything was produced.
pub struct OutputBuffer {
    buf: Vec<u8>,
}

impl View for OutputBuffer {
    type V = Seq<u8>;

    closed spec fn view(&self) -> Seq<u8> {
        self.buf@
    }
}

impl OutputBuffer {
    /// Whether the buffer holds a terminated string, as it does after
    /// every producing call.
    pub open spec fn terminated(self) -> bool {
        self@.len() > 0 && self@.last() == 0
    }

    /// A fresh buffer with no pending string.
    pub fn new() -> (r: OutputBuffer)
        ensures
            r@ == Seq::<u8>::empty(),
    {
        OutputBuffer { buf: Vec::new() }
    }

    /// Clears the buffer, writes `data`, and appends the terminating
    /// zero byte. The previous pending string is gone after this.
    pub fn output_vec(&mut self, data: &[u8])
        ensures
            final(self)@ == data@.push(0u8),
            final(self).terminated(),
    {
        self.buf.clear();
        let mut i: usize = 0;
        while i < data.len()
            invariant
                i <= data@.len(),
                self.buf@ == data@.subrange(0, i as int),
            decreases data@.len() - i,
        {
            self.buf.push(data[i]);
            proof {
                assert(data@.subrange(0, i as int).push(data@[i as int]) =~= data@.subrange(
                    0,
                    i + 1,
                ));
            }
            i = i + 1;
        }
        proof {
            assert(data@.subrange(0, data@.len() as int) =~= data@);
        }
        self.buf.push(0);
    }

    /// Writes the UTF-8 bytes of `s` and the terminating zero byte.
    pub fn output_str(&mut self, s: &str)
        ensures
            final(self)@ == s.spec_bytes().push(0u8),
            final(self).terminated(),
    {
        self.output_vec(s.as_bytes());
    }

    /// Length of the pending string, excluding the terminator. Defined
    /// only once a string was produced.
    pub fn get_buf_len(&self) -> (r: usize)
        requires
            self@.len() >= 1,
        ensures
            r == self@.len() - 1,
    {
        self.buf.len() - 1
    }

    /// One byte of the pending string: the host's copy-out reads the
    /// first `get_buf_len()` bytes this way, then finds the terminator.
    pub fn byte_at(&self, i: usize) -> (r: u8)
        requires
            i < self@.len(),
        ensures
            r == self@[i as int],
    {
        self.buf[i]
    }

    /// How many bytes the buffer holds, terminator included; zero when
    /// nothing was produced yet.
    pub fn len_bytes(&self) -> (r: usize)
        ensures
            r == self@.len(),
    {
        self.buf.len()
    }

    /// The buffer's storage, whole: the pending string followed by its
    /// terminator. Valid until the next producing call.
    pub fn as_bytes(&self) -> (r: &[u8])
        ensures
            r@ == self@,
    {
        self.buf.as_slice()
    }

    /// Takes the buffer's storage out, consuming the buffer.
    pub fn into_bytes(self) -> (r: Vec<u8>)
        ensures
            r@ == self@,
    {
        self.buf
    }
}

/// After a producing call wrote bytes `data`, the buffer reports length
/// `data.len()`, its first `data.len()` bytes reproduce `data` exactly,
/// and the byte at offset `data.len()` is the zero terminator.
pub proof fn lemma_output_round_trip(buf: OutputBuffer, data: Seq<u8>)
    requires
        buf@ == data.push(0u8),
    ensures
        buf@.len() - 1 == data.len(),
        buf@.subrange(0, data.len() as int) == data,
        buf@[data.len() as int] == 0u8,
{
    assert(buf@.subrange(0, data.len() as int) =~= data);
}

} // verus!
