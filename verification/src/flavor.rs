//! The FTLS frame: `"FTLS"`, then the payload's length as a little-endian
//! `u64`, then the payload. `FtlsSeFlavor` collects the bytes that the
//! serializer pushes and wraps them in a frame; `FtlsDeFlavor` opens a frame
//! and hands its bytes to the deserializer.

use vstd::prelude::*;
use vstd::bytes::{
    lemma_auto_spec_u64_to_from_le_bytes, spec_u64_from_le_bytes, spec_u64_to_le_bytes,
    u64_from_le_bytes, u64_to_le_bytes,
};
use vstd::slice::{slice_subrange, slice_to_vec};

use crate::message::MessageParsingError;

verus! {

/// The four bytes `b"FTLS"` that open every frame.
pub const MAGIC_HEADER: [u8; 4] = [0x46u8, 0x54u8, 0x4cu8, 0x53u8];

/// Length of the magic header.
pub const HEADER_LEN: usize = 4;

/// Length of the whole frame prefix: magic header and length field.
pub const PREFIX_LEN: usize = 12;

/// The magic header as a sequence.
pub open spec fn magic() -> Seq<u8> {
    seq![0x46u8, 0x54u8, 0x4cu8, 0x53u8]
}

/// The exported header constant is the magic header of every frame.
pub proof fn lemma_magic_header_constant()
    ensures
        MAGIC_HEADER@ == magic(),
{
    assert(MAGIC_HEADER@ =~= magic());
}

/// The frame that wraps `payload`.
pub open spec fn frame(payload: Seq<u8>) -> Seq<u8> {
    magic() + spec_u64_to_le_bytes(payload.len() as u64) + payload
}

/// Whether `buf` starts with the magic header.
pub open spec fn has_magic(buf: Seq<u8>) -> bool {
    buf.len() >= 4 && buf.subrange(0, 4) == magic()
}

/// The bytes that a header check reads: the first four, or all of a shorter buffer.
pub open spec fn header_field(buf: Seq<u8>) -> Seq<u8> {
    if buf.len() < 4 {
        buf
    } else {
        buf.subrange(0, 4)
    }
}

/// What opening a buffer as a frame gives.
pub enum OpenedFrame {
    /// The buffer does not start with the magic header; the bytes read as header.
    BadHeader(Seq<u8>),
    /// The header is right but no full length field follows.
    NoLength,
    /// The bytes after the prefix and the length that the prefix claims.
    Opened(Seq<u8>, u64),
}

/// Opening `buf` as a frame.
pub open spec fn open_frame(buf: Seq<u8>) -> OpenedFrame {
    if !has_magic(buf) {
        OpenedFrame::BadHeader(header_field(buf))
    } else if buf.len() < 12 {
        OpenedFrame::NoLength
    } else {
        OpenedFrame::Opened(
            buf.subrange(12, buf.len() as int),
            spec_u64_from_le_bytes(buf.subrange(4, 12)),
        )
    }
}

/// The error that a flavor reports to the deserializer.
#[derive(Debug, Clone, Copy, PartialEq, Eq)]
pub enum FlavorError {
    /// The frame ran out before the value was complete.
    DeserializeBadEncoding,
}

/// Appends `src` to `out`.
fn append_bytes(out: &mut Vec<u8>, src: &[u8])
    ensures
        final(out)@ == old(out)@ + src@,
{
    let mut i: usize = 0;
    while i < src.len()
        invariant
            i <= src@.len(),
            out@ == old(out)@ + src@.subrange(0, i as int),
        decreases src@.len() - i,
    {
        out.push(src[i]);
        i = i + 1;
        assert(out@ =~= old(out)@ + src@.subrange(0, i as int));
    }
    assert(src@.subrange(0, i as int) =~= src@);
}

/// Collects the bytes of a serialized value and frames them.
pub struct FtlsSeFlavor {
    inner: Vec<u8>,
}

impl View for FtlsSeFlavor {
    type V = Seq<u8>;

    /// The bytes pushed so far.
    closed spec fn view(&self) -> Seq<u8> {
        self.inner@
    }
}

impl FtlsSeFlavor {
    /// An empty flavor.
    pub fn new() -> (s: Self)
        ensures
            s@ == Seq::<u8>::empty(),
    {
        FtlsSeFlavor { inner: Vec::new() }
    }

    /// Appends one byte; never fails.
    pub fn try_push(&mut self, data: u8) -> (r: Result<(), FlavorError>)
        ensures
            r is Ok,
            final(self)@ == old(self)@.push(data),
    {
        self.inner.push(data);
        Ok(())
    }

    /// The frame around the pushed bytes; never fails.
    pub fn finalize(self) -> (r: Result<Vec<u8>, FlavorError>)
        ensures
            r matches Ok(out) && out@ == frame(self@),
    {
        let mut out: Vec<u8> = Vec::new();
        out.push(0x46u8);
        out.push(0x54u8);
        out.push(0x4cu8);
        out.push(0x53u8);
        assert(out@ =~= magic());
        let len_bytes = u64_to_le_bytes(self.inner.len() as u64);
        append_bytes(&mut out, len_bytes.as_slice());
        append_bytes(&mut out, self.inner.as_slice());
        Ok(out)
    }
}

impl Default for FtlsSeFlavor {
    /// An empty flavor, as `new` gives.
    fn default() -> (s: Self)
        ensures
            s@ == Seq::<u8>::empty(),
    {
        FtlsSeFlavor::new()
    }
}

/// Hands the bytes of a frame to a deserializer, one by one or in runs.
pub struct FtlsDeFlavor<'de> {
    inner: &'de [u8],
    len: u64,
    cursor: usize,
}

impl<'de> FtlsDeFlavor<'de> {
    #[verifier::type_invariant]
    spec fn cursor_in_bounds(&self) -> bool {
        self.cursor <= self.inner@.len()
    }

    /// The bytes after the frame prefix.
    pub closed spec fn data(&self) -> Seq<u8> {
        self.inner@
    }

    /// The payload length that the prefix claims.
    pub closed spec fn claimed_len(&self) -> u64 {
        self.len
    }

    /// How many bytes have been handed out.
    pub closed spec fn position(&self) -> usize {
        self.cursor
    }

    /// Whether `pop` has a byte to hand out: the cursor is before the
    /// claimed length and before the end of the data.
    pub open spec fn can_pop_spec(&self) -> bool {
        self.position() < self.claimed_len() && self.position() < self.data().len()
    }

    /// Whether `try_take_n(ct)` has `ct` bytes to hand out: the run ends at
    /// or before the claimed length and at or before the end of the data.
    pub open spec fn can_take_spec(&self, ct: usize) -> bool {
        self.position() + ct <= self.claimed_len() && self.position() + ct <= self.data().len()
    }

    /// Opens `buf` as a frame. The first four bytes must be the magic header,
    /// and eight more bytes must hold the length.
    pub fn new(buf: &'de [u8]) -> (r: Result<Self, MessageParsingError>)
        ensures
            match open_frame(buf@) {
                OpenedFrame::BadHeader(h) => r matches Err(
                    MessageParsingError::InvalidHeader(v),
                ) && v@ == h,
                OpenedFrame::NoLength => r matches Err(MessageParsingError::PrimitiveConversion),
                OpenedFrame::Opened(d, l) => r matches Ok(de) && de.data() == d
                    && de.claimed_len() == l && de.position() == 0,
            },
    {
        if buf.len() < HEADER_LEN {
            return Err(MessageParsingError::InvalidHeader(slice_to_vec(buf)));
        }
        let header = slice_subrange(buf, 0, HEADER_LEN);
        if !(header[0] == 0x46u8 && header[1] == 0x54u8 && header[2] == 0x4cu8 && header[3]
            == 0x53u8) {
            proof {
                assert(header@ != magic());
            }
            return Err(MessageParsingError::InvalidHeader(slice_to_vec(header)));
        }
        assert(header@ =~= magic());
        if buf.len() < PREFIX_LEN {
            return Err(MessageParsingError::PrimitiveConversion);
        }
        let len_bytes = slice_subrange(buf, HEADER_LEN, PREFIX_LEN);
        let len = u64_from_le_bytes(len_bytes);
        let inner = slice_subrange(buf, PREFIX_LEN, buf.len());
        Ok(FtlsDeFlavor { cursor: 0, inner, len })
    }

    /// The next byte of the payload. Fails, and hands out nothing, once the
    /// cursor has reached the claimed length or the end of the data.
    pub fn pop(&mut self) -> (r: Result<u8, FlavorError>)
        ensures
            final(self).data() == old(self).data(),
            final(self).claimed_len() == old(self).claimed_len(),
            !old(self).can_pop_spec() ==> r == Err::<u8, FlavorError>(
                FlavorError::DeserializeBadEncoding,
            ) && final(self).position() == old(self).position(),
            old(self).can_pop_spec() ==> r == Ok::<u8, FlavorError>(
                old(self).data()[old(self).position() as int],
            ) && final(self).position() == old(self).position() + 1,
    {
        proof {
            use_type_invariant(&*self);
        }
        if self.cursor as u64 >= self.len || self.cursor >= self.inner.len() {
            return Err(FlavorError::DeserializeBadEncoding);
        }
        let next = self.inner[self.cursor];
        self.cursor = self.cursor + 1;
        Ok(next)
    }

    /// The next `ct` bytes of the payload. Fails, and hands out nothing,
    /// unless they end at or before the claimed length and the end of the data.
    pub fn try_take_n(&mut self, ct: usize) -> (r: Result<&'de [u8], FlavorError>)
        ensures
            final(self).data() == old(self).data(),
            final(self).claimed_len() == old(self).claimed_len(),
            !old(self).can_take_spec(ct) ==> (r matches Err(e) && e
                == FlavorError::DeserializeBadEncoding) && final(self).position() == old(
                self,
            ).position(),
            old(self).can_take_spec(ct) ==> (r matches Ok(s) && s@ == old(self).data().subrange(
                old(self).position() as int,
                old(self).position() + ct,
            )) && final(self).position() == old(self).position() + ct,
    {
        proof {
            use_type_invariant(&*self);
        }
        if ct > self.inner.len() - self.cursor {
            return Err(FlavorError::DeserializeBadEncoding);
        }
        let end = self.cursor + ct;
        if end as u64 > self.len {
            return Err(FlavorError::DeserializeBadEncoding);
        }
        let inner: &'de [u8] = self.inner;
        let next = slice_subrange(inner, self.cursor, end);
        self.cursor = end;
        Ok(next)
    }

    /// The bytes not yet handed out; never fails.
    pub fn finalize(self) -> (r: Result<&'de [u8], FlavorError>)
        ensures
            r matches Ok(s) && s@ == self.data().subrange(
                self.position() as int,
                self.data().len() as int,
            ),
    {
        proof {
            use_type_invariant(&self);
        }
        let inner: &'de [u8] = self.inner;
        Ok(slice_subrange(inner, self.cursor, inner.len()))
    }
}

/// A frame opens to the payload that it wraps, with the payload's length as
/// the claimed length: what `FtlsSeFlavor::finalize` writes,
/// `FtlsDeFlavor::new` reads back. From there `pop` and `try_take_n` hand out
/// exactly the payload's bytes, up to its last one and not beyond.
pub proof fn lemma_frame_opens(payload: Seq<u8>)
    requires
        payload.len() <= u64::MAX,
    ensures
        open_frame(frame(payload)) == OpenedFrame::Opened(payload, payload.len() as u64),
{
    lemma_auto_spec_u64_to_from_le_bytes();
    let f = frame(payload);
    let l = spec_u64_to_le_bytes(payload.len() as u64);
    assert(f.subrange(0, 4) =~= magic());
    assert(f.subrange(4, 12) =~= l);
    assert(f.subrange(12, f.len() as int) =~= payload);
}

/// Once a frame is opened, the flavor hands out exactly its payload: a byte
/// while the cursor is inside it, a run while the run ends inside it or at
/// its end.
pub proof fn lemma_opened_frame_hands_out_payload(de: FtlsDeFlavor, payload: Seq<u8>, ct: usize)
    requires
        de.data() == payload,
        de.claimed_len() == payload.len(),
    ensures
        de.can_pop_spec() <==> de.position() < payload.len(),
        de.can_take_spec(ct) <==> de.position() + ct <= payload.len(),
{
}

} // verus!
