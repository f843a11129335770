//! Buffers of bytes that keep short contents in place.
//!
//! Each buffer is a `SmallVec` of bytes with an inline size of its own, and
//! each of its functions is the function of the same name of `SmallVec`.
use crate::traits::Buffer;
use smallvec::SmallVec;
use vstd::prelude::*;

verus! {

/// A buffer for the value of a field. Up to 64 bytes lie in the buffer itself; more
/// lie on the heap. Kept in a `SmallVec<[u8; 64]>`.
#[verifier::external_body]
#[derive(Debug)]
pub struct FieldBuffer {
    inner: SmallVec<[u8; 64]>,
}

/// The bytes that a buffer holds.
pub uninterp spec fn field_bytes(buffer: FieldBuffer) -> Seq<u8>;

impl FieldBuffer {
    /// `SmallVec::new`: a buffer without bytes.
    #[verifier::external_body]
    pub fn new() -> (r: FieldBuffer)
        ensures
            field_bytes(r) == Seq::<u8>::empty(),
    {
        FieldBuffer { inner: SmallVec::new() }
    }

    /// `SmallVec::with_capacity`: a buffer without bytes, with room for
    /// `capacity` of them.
    #[verifier::external_body]
    pub fn with_capacity(capacity: usize) -> (r: FieldBuffer)
        requires
            capacity <= isize::MAX,
        ensures
            field_bytes(r) == Seq::<u8>::empty(),
    {
        FieldBuffer { inner: SmallVec::with_capacity(capacity) }
    }

    /// `SmallVec::capacity`: the number of bytes that the buffer has room
    /// for. It is never less than 64, nor less than the number of bytes
    /// in the buffer.
    #[verifier::external_body]
    pub fn capacity(&self) -> (r: usize)
        ensures
            r >= 64,
            r >= field_bytes(*self).len(),
    {
        self.inner.capacity()
    }

    /// `SmallVec::len`: the number of bytes in the buffer.
    #[verifier::external_body]
    pub fn len(&self) -> (r: usize)
        ensures
            r == field_bytes(*self).len(),
    {
        self.inner.len()
    }

    /// `SmallVec::is_empty`: whether the buffer holds no byte.
    #[verifier::external_body]
    pub fn is_empty(&self) -> (r: bool)
        ensures
            r == (field_bytes(*self).len() == 0),
    {
        self.inner.is_empty()
    }

    /// `SmallVec::extend_from_slice`: the bytes of `slice` are appended
    /// behind those that the buffer holds.
    #[verifier::external_body]
    pub fn extend_from_slice(&mut self, slice: &[u8])
        ensures
            field_bytes(*final(self)) == field_bytes(*old(self)) + slice@,
    {
        self.inner.extend_from_slice(slice);
    }

    /// `SmallVec::as_slice`: the bytes of the buffer.
    #[verifier::external_body]
    pub fn as_slice(&self) -> (r: &[u8])
        ensures
            r@ == field_bytes(*self),
    {
        self.inner.as_slice()
    }

    /// `SmallVec::clear`: the buffer holds no byte afterwards.
    #[verifier::external_body]
    pub fn clear(&mut self)
        ensures
            field_bytes(*final(self)) == Seq::<u8>::empty(),
    {
        self.inner.clear();
    }

    /// `SmallVec::spilled`, negated: whether the bytes lie in the buffer
    /// itself. More than 64 bytes never do.
    #[verifier::external_body]
    pub fn is_inline(&self) -> (r: bool)
        ensures
            field_bytes(*self).len() > 64 ==> !r,
    {
        !self.inner.spilled()
    }
}

impl Clone for FieldBuffer {
    /// `SmallVec::clone`: a buffer with the same bytes.
    #[verifier::external_body]
    fn clone(&self) -> (r: FieldBuffer)
        ensures
            field_bytes(r) == field_bytes(*self),
    {
        FieldBuffer { inner: self.inner.clone() }
    }
}

impl Default for FieldBuffer {
    /// A buffer without bytes.
    fn default() -> (r: FieldBuffer)
        ensures
            field_bytes(r) == Seq::<u8>::empty(),
    {
        FieldBuffer::new()
    }
}

impl Buffer for FieldBuffer {
    open spec fn spec_bytes(&self) -> Seq<u8> {
        field_bytes(*self)
    }

    fn as_slice(&self) -> (r: &[u8]) {
        FieldBuffer::as_slice(self)
    }

    fn len(&self) -> (r: usize) {
        FieldBuffer::len(self)
    }

    fn clear(&mut self) {
        FieldBuffer::clear(self);
    }

    fn extend_from_slice(&mut self, data: &[u8]) {
        FieldBuffer::extend_from_slice(self, data);
    }
}

/// A buffer for the header of a message. Up to 128 bytes lie in the buffer itself; more
/// lie on the heap. Kept in a `SmallVec<[u8; 128]>`.
#[verifier::external_body]
#[derive(Debug)]
pub struct HeaderBuffer {
    inner: SmallVec<[u8; 128]>,
}

/// The bytes that a buffer holds.
pub uninterp spec fn header_bytes(buffer: HeaderBuffer) -> Seq<u8>;

impl HeaderBuffer {
    /// `SmallVec::new`: a buffer without bytes.
    #[verifier::external_body]
    pub fn new() -> (r: HeaderBuffer)
        ensures
            header_bytes(r) == Seq::<u8>::empty(),
    {
        HeaderBuffer { inner: SmallVec::new() }
    }

    /// `SmallVec::len`: the number of bytes in the buffer.
    #[verifier::external_body]
    pub fn len(&self) -> (r: usize)
        ensures
            r == header_bytes(*self).len(),
    {
        self.inner.len()
    }

    /// `SmallVec::is_empty`: whether the buffer holds no byte.
    #[verifier::external_body]
    pub fn is_empty(&self) -> (r: bool)
        ensures
            r == (header_bytes(*self).len() == 0),
    {
        self.inner.is_empty()
    }

    /// `SmallVec::extend_from_slice`: the bytes of `slice` are appended
    /// behind those that the buffer holds.
    #[verifier::external_body]
    pub fn extend_from_slice(&mut self, slice: &[u8])
        ensures
            header_bytes(*final(self)) == header_bytes(*old(self)) + slice@,
    {
        self.inner.extend_from_slice(slice);
    }

    /// `SmallVec::as_slice`: the bytes of the buffer.
    #[verifier::external_body]
    pub fn as_slice(&self) -> (r: &[u8])
        ensures
            r@ == header_bytes(*self),
    {
        self.inner.as_slice()
    }

    /// `SmallVec::clear`: the buffer holds no byte afterwards.
    #[verifier::external_body]
    pub fn clear(&mut self)
        ensures
            header_bytes(*final(self)) == Seq::<u8>::empty(),
    {
        self.inner.clear();
    }
}

impl Clone for HeaderBuffer {
    /// `SmallVec::clone`: a buffer with the same bytes.
    #[verifier::external_body]
    fn clone(&self) -> (r: HeaderBuffer)
        ensures
            header_bytes(r) == header_bytes(*self),
    {
        HeaderBuffer { inner: self.inner.clone() }
    }
}

impl Default for HeaderBuffer {
    /// A buffer without bytes.
    fn default() -> (r: HeaderBuffer)
        ensures
            header_bytes(r) == Seq::<u8>::empty(),
    {
        HeaderBuffer::new()
    }
}

impl Buffer for HeaderBuffer {
    open spec fn spec_bytes(&self) -> Seq<u8> {
        header_bytes(*self)
    }

    fn as_slice(&self) -> (r: &[u8]) {
        HeaderBuffer::as_slice(self)
    }

    fn len(&self) -> (r: usize) {
        HeaderBuffer::len(self)
    }

    fn clear(&mut self) {
        HeaderBuffer::clear(self);
    }

    fn extend_from_slice(&mut self, data: &[u8]) {
        HeaderBuffer::extend_from_slice(self, data);
    }
}

/// A buffer for a whole message. Up to 256 bytes lie in the buffer itself; more
/// lie on the heap. Kept in a `SmallVec<[u8; 256]>`.
#[verifier::external_body]
#[derive(Debug)]
pub struct MessageBuffer {
    inner: SmallVec<[u8; 256]>,
}

/// The bytes that a buffer holds.
pub uninterp spec fn message_bytes(buffer: MessageBuffer) -> Seq<u8>;

impl MessageBuffer {
    /// `SmallVec::new`: a buffer without bytes.
    #[verifier::external_body]
    pub fn new() -> (r: MessageBuffer)
        ensures
            message_bytes(r) == Seq::<u8>::empty(),
    {
        MessageBuffer { inner: SmallVec::new() }
    }

    /// `SmallVec::len`: the number of bytes in the buffer.
    #[verifier::external_body]
    pub fn len(&self) -> (r: usize)
        ensures
            r == message_bytes(*self).len(),
    {
        self.inner.len()
    }

    /// `SmallVec::is_empty`: whether the buffer holds no byte.
    #[verifier::external_body]
    pub fn is_empty(&self) -> (r: bool)
        ensures
            r == (message_bytes(*self).len() == 0),
    {
        self.inner.is_empty()
    }

    /// `SmallVec::extend_from_slice`: the bytes of `slice` are appended
    /// behind those that the buffer holds.
    #[verifier::external_body]
    pub fn extend_from_slice(&mut self, slice: &[u8])
        ensures
            message_bytes(*final(self)) == message_bytes(*old(self)) + slice@,
    {
        self.inner.extend_from_slice(slice);
    }

    /// `SmallVec::as_slice`: the bytes of the buffer.
    #[verifier::external_body]
    pub fn as_slice(&self) -> (r: &[u8])
        ensures
            r@ == message_bytes(*self),
    {
        self.inner.as_slice()
    }

    /// `SmallVec::clear`: the buffer holds no byte afterwards.
    #[verifier::external_body]
    pub fn clear(&mut self)
        ensures
            message_bytes(*final(self)) == Seq::<u8>::empty(),
    {
        self.inner.clear();
    }
}

impl Clone for MessageBuffer {
    /// `SmallVec::clone`: a buffer with the same bytes.
    #[verifier::external_body]
    fn clone(&self) -> (r: MessageBuffer)
        ensures
            message_bytes(r) == message_bytes(*self),
    {
        MessageBuffer { inner: self.inner.clone() }
    }
}

impl Default for MessageBuffer {
    /// A buffer without bytes.
    fn default() -> (r: MessageBuffer)
        ensures
            message_bytes(r) == Seq::<u8>::empty(),
    {
        MessageBuffer::new()
    }
}

impl Buffer for MessageBuffer {
    open spec fn spec_bytes(&self) -> Seq<u8> {
        message_bytes(*self)
    }

    fn as_slice(&self) -> (r: &[u8]) {
        MessageBuffer::as_slice(self)
    }

    fn len(&self) -> (r: usize) {
        MessageBuffer::len(self)
    }

    fn clear(&mut self) {
        MessageBuffer::clear(self);
    }

    fn extend_from_slice(&mut self, data: &[u8]) {
        MessageBuffer::extend_from_slice(self, data);
    }
}

} // verus!
