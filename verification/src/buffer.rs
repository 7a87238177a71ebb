//! The fixed byte buffers that reports are read into and LED packets are built in.
use vstd::prelude::*;

verus! {

/// Bytes that a [`Buffer`] can hold.
pub const BUFFER_SIZE: usize = 256;

/// A byte buffer of which the first `len` bytes are in use.
#[derive(Debug)]
pub struct Buffer {
    pub data: [u8; 256],
    pub len: usize,
}

/// What a [`Buffer`] holds: all of its bytes, and how many of them are in use.
#[verifier::ext_equal]
pub struct BufferView {
    pub data: Seq<u8>,
    pub len: nat,
}

impl BufferView {
    /// The buffer is as large as it should be and its length lies inside it.
    pub open spec fn wf(self) -> bool {
        &&& self.data.len() == BUFFER_SIZE
        &&& self.len <= BUFFER_SIZE
    }

    /// The bytes in use.
    pub open spec fn bytes(self) -> Seq<u8> {
        self.data.take(self.len as int)
    }

    /// An empty buffer, all zeros.
    pub open spec fn empty() -> BufferView {
        BufferView { data: Seq::new(BUFFER_SIZE as nat, |i: int| 0u8), len: 0 }
    }
}

impl View for Buffer {
    type V = BufferView;

    open spec fn view(&self) -> BufferView {
        BufferView { data: self.data@, len: self.len as nat }
    }
}

impl Buffer {
    /// The length in use lies inside the buffer.
    pub open spec fn wf(&self) -> bool {
        self@.wf()
    }

    /// An empty buffer, all zeros.
    pub fn new() -> (buffer: Buffer)
        ensures
            buffer@ == BufferView::empty(),
            buffer.wf(),
    {
        Buffer { data: [0; 256], len: 0 }
    }

    /// The bytes in use.
    pub fn slice(&self) -> (bytes: &[u8])
        requires
            self.wf(),
        ensures
            bytes@ == self@.bytes(),
    {
        vstd::slice::slice_subrange(self.data.as_slice(), 0, self.len)
    }

    /// Whether two buffers hold the same bytes in use.
    pub fn same_bytes(&self, other: &Buffer) -> (same: bool)
        requires
            self.wf(),
            other.wf(),
        ensures
            same == (self@.bytes() == other@.bytes()),
    {
        if self.len != other.len {
            assert(self@.bytes().len() != other@.bytes().len());
            return false;
        }
        for i in 0..self.len
            invariant
                self.wf(),
                other.wf(),
                self.len == other.len,
                self@.bytes().take(i as int) == other@.bytes().take(i as int),
        {
            if self.data[i] != other.data[i] {
                assert(self@.bytes()[i as int] != other@.bytes()[i as int]);
                return false;
            }
            assert(self@.bytes().take(i + 1) == self@.bytes().take(i as int).push(self.data@[i as int]));
            assert(other@.bytes().take(i + 1) == other@.bytes().take(i as int).push(other.data@[i as int]));
        }
        assert(self@.bytes().take(self.len as int) == self@.bytes());
        assert(other@.bytes().take(self.len as int) == other@.bytes());
        true
    }
}

} // verus!
