//! Messages and how a stream of bytes falls into them.
//!
//! Every message starts with a header of eight bytes: the id of the object
//! it is sent to or comes from, the opcode, and the length of the whole
//! message, header included. The arguments follow as the payload.

use vstd::prelude::*;
use vstd::slice::{slice_subrange, slice_to_vec};
use crate::protocol::error::{error_view, result_view, view_some, WlError, WlErrorView};
use crate::protocol::types::primitive::{
    get_u16, get_u32, lemma_u16_wire_round_trip, lemma_u32_wire_round_trip, put_u16, put_u32,
    u16_unwire, u16_wire, u32_unwire, u32_wire,
};

verus! {

/// Length in bytes of a message header.
pub const WL_MESSAGE_HEADER_LEN: usize = 8;

/// The longest payload whose message length still fits the header's 16 bits.
pub const WL_MESSAGE_MAX_PAYLOAD: usize = 65527;

/// The header of a message.
#[derive(Debug, Clone, Copy, PartialEq, Eq, Structural)]
pub struct WlMessageHeader {
    /// The object that the message is sent to or comes from.
    pub object_id: u32,
    /// Which request or event of the object's interface this is.
    pub opcode: u16,
    /// Length of the message in bytes, header and payload.
    pub size: u16,
}

/// The wire form of a header.
pub open spec fn header_wire(h: WlMessageHeader) -> Seq<u8> {
    u32_wire(h.object_id) + u16_wire(h.opcode) + u16_wire(h.size)
}

/// The header that the first eight bytes of `buf` spell out.
pub open spec fn front_header(buf: Seq<u8>) -> WlMessageHeader
    recommends
        buf.len() >= 8,
{
    WlMessageHeader {
        object_id: u32_unwire(buf.subrange(0, 4)),
        opcode: u16_unwire(buf.subrange(4, 6)),
        size: u16_unwire(buf.subrange(6, 8)),
    }
}

/// The header at the start of `buf`, if `buf` is long enough to hold one.
pub open spec fn parse_header(buf: Seq<u8>) -> Result<WlMessageHeader, WlErrorView> {
    if buf.len() < 8 {
        Err(WlErrorView::TruncatedBuffer)
    } else {
        Ok(front_header(buf))
    }
}

/// A header read back from its wire form is the header that was written,
/// whatever follows it in the buffer.
pub proof fn lemma_header_round_trip(h: WlMessageHeader, rest: Seq<u8>)
    ensures
        header_wire(h).len() == 8,
        parse_header(header_wire(h) + rest) == Ok::<_, WlErrorView>(h),
{
    let buf = header_wire(h) + rest;
    lemma_u32_wire_round_trip(h.object_id);
    lemma_u16_wire_round_trip(h.opcode);
    lemma_u16_wire_round_trip(h.size);
    assert(buf.subrange(0, 4) =~= u32_wire(h.object_id));
    assert(buf.subrange(4, 6) =~= u16_wire(h.opcode));
    assert(buf.subrange(6, 8) =~= u16_wire(h.size));
}

impl WlMessageHeader {
    /// Length of the whole message in bytes.
    pub fn message_len(&self) -> (len: usize)
        ensures
            len == self.size,
    {
        self.size as usize
    }

    /// The wire form of the header.
    pub fn to_bytes(&self) -> (out: Vec<u8>)
        ensures
            out@ == header_wire(*self),
    {
        let mut out: Vec<u8> = Vec::new();
        put_u32(&mut out, self.object_id);
        put_u16(&mut out, self.opcode);
        put_u16(&mut out, self.size);
        assert(out@ =~= header_wire(*self));
        out
    }

    /// Reads a header from the first eight bytes of `buf`.
    pub fn from_bytes(buf: &[u8]) -> (r: Result<WlMessageHeader, WlError>)
        ensures
            error_view(r) == parse_header(buf@),
    {
        if buf.len() < WL_MESSAGE_HEADER_LEN {
            return Err(WlError::TruncatedBuffer);
        }
        let object_id = match get_u32(buf, 0) {
            Ok(v) => v,
            Err(e) => {
                return Err(e);
            },
        };
        let opcode = match get_u16(buf, 4) {
            Ok(v) => v,
            Err(e) => {
                return Err(e);
            },
        };
        let size = match get_u16(buf, 6) {
            Ok(v) => v,
            Err(e) => {
                return Err(e);
            },
        };
        Ok(WlMessageHeader { object_id, opcode, size })
    }
}

/// What a message is, apart from how it is held in memory.
pub ghost struct MessageView {
    /// The object that the message is sent to or comes from.
    pub object_id: u32,
    /// Which request or event of the object's interface this is.
    pub opcode: u16,
    /// The encoded arguments.
    pub payload: Seq<u8>,
}

/// The wire form of a message: its header, with the length filled in, and
/// its payload.
pub open spec fn message_wire(m: MessageView) -> Seq<u8>
    recommends
        m.payload.len() <= WL_MESSAGE_MAX_PAYLOAD,
{
    header_wire(
        WlMessageHeader {
            object_id: m.object_id,
            opcode: m.opcode,
            size: (8 + m.payload.len()) as u16,
        },
    ) + m.payload
}

/// The message at the start of `buf`. Its length comes from its header; what
/// lies behind that length in `buf` is not part of it.
pub open spec fn parse_message(buf: Seq<u8>) -> Result<MessageView, WlErrorView> {
    match parse_header(buf) {
        Err(e) => Err(e),
        Ok(h) => if h.size < 8 || buf.len() < h.size {
            Err(WlErrorView::TruncatedBuffer)
        } else {
            Ok(
                MessageView {
                    object_id: h.object_id,
                    opcode: h.opcode,
                    payload: buf.subrange(8, h.size as int),
                },
            )
        },
    }
}

/// The length that an encoded message declares is eight more than the length
/// of its payload, and decoding the encoded bytes gives the object id, the
/// opcode and the payload back, whatever follows the message in the buffer.
pub proof fn lemma_message_round_trip(m: MessageView, rest: Seq<u8>)
    requires
        m.payload.len() <= WL_MESSAGE_MAX_PAYLOAD,
    ensures
        message_wire(m).len() == 8 + m.payload.len(),
        parse_header(message_wire(m) + rest) matches Ok(h) && h.size == 8 + m.payload.len(),
        parse_message(message_wire(m) + rest) == Ok::<_, WlErrorView>(m),
{
    let h = WlMessageHeader {
        object_id: m.object_id,
        opcode: m.opcode,
        size: (8 + m.payload.len()) as u16,
    };
    let buf = message_wire(m) + rest;
    lemma_header_round_trip(h, m.payload + rest);
    assert(buf =~= header_wire(h) + (m.payload + rest));
    assert(buf.subrange(8, h.size as int) =~= m.payload);
}

/// A message: a header and the payload it announces.
#[derive(Debug, PartialEq, Eq)]
pub struct WlMessage {
    header: WlMessageHeader,
    data: Vec<u8>,
}

impl View for WlMessage {
    type V = MessageView;

    closed spec fn view(&self) -> MessageView {
        MessageView {
            object_id: self.header.object_id,
            opcode: self.header.opcode,
            payload: self.data@,
        }
    }
}

impl WlMessage {
    #[verifier::type_invariant]
    spec fn well_formed(&self) -> bool {
        self.header.size == 8 + self.data@.len()
    }

    /// A message for the object `object_id` with the given opcode and a copy
    /// of `data` as its payload. The length in its header is worked out from
    /// the payload.
    pub fn new(object_id: u32, opcode: u16, data: &[u8]) -> (m: WlMessage)
        requires
            data@.len() <= WL_MESSAGE_MAX_PAYLOAD,
        ensures
            m@ == (MessageView { object_id, opcode, payload: data@ }),
    {
        WlMessage {
            header: WlMessageHeader {
                object_id,
                opcode,
                size: (data.len() + WL_MESSAGE_HEADER_LEN) as u16,
            },
            data: slice_to_vec(data),
        }
    }

    /// The header, with the length of the whole message in it.
    pub fn header(&self) -> (h: WlMessageHeader)
        ensures
            h.object_id == self@.object_id,
            h.opcode == self@.opcode,
            h.size == 8 + self@.payload.len(),
    {
        proof {
            use_type_invariant(self);
        }
        self.header
    }

    /// The object that the message is sent to or comes from.
    pub fn object_id(&self) -> (id: u32)
        ensures
            id == self@.object_id,
    {
        self.header.object_id
    }

    /// Which request or event of the object's interface this is.
    pub fn opcode(&self) -> (opcode: u16)
        ensures
            opcode == self@.opcode,
    {
        self.header.opcode
    }

    /// The encoded arguments.
    pub fn payload(&self) -> (payload: &[u8])
        ensures
            payload@ == self@.payload,
            payload@.len() <= WL_MESSAGE_MAX_PAYLOAD,
    {
        proof {
            use_type_invariant(self);
        }
        self.data.as_slice()
    }

    /// The wire form of the message.
    pub fn to_bytes(&self) -> (out: Vec<u8>)
        ensures
            out@ == message_wire(self@),
    {
        proof {
            use_type_invariant(self);
        }
        let mut out: Vec<u8> = self.header.to_bytes();
        let ghost prefix = out@;
        let mut i: usize = 0;
        while i < self.data.len()
            invariant
                i <= self.data@.len(),
                out@ == prefix + self.data@.take(i as int),
            decreases self.data@.len() - i,
        {
            out.push(self.data[i]);
            i += 1;
            assert(out@ =~= prefix + self.data@.take(i as int));
        }
        assert(self.data@.take(i as int) =~= self.data@);
        out
    }

    /// Reads the message at the start of `buf`. Bytes of `buf` behind the
    /// length that the header declares belong to the next message and are
    /// left alone.
    pub fn from_bytes(buf: &[u8]) -> (r: Result<WlMessage, WlError>)
        ensures
            result_view(r) == parse_message(buf@),
    {
        let header = match WlMessageHeader::from_bytes(buf) {
            Ok(h) => h,
            Err(e) => {
                return Err(e);
            },
        };
        let len: usize = header.message_len();
        if len < WL_MESSAGE_HEADER_LEN || buf.len() < len {
            return Err(WlError::TruncatedBuffer);
        }
        let payload = slice_subrange(buf, WL_MESSAGE_HEADER_LEN, len);
        Ok(WlMessage { header, data: slice_to_vec(payload) })
    }
}

impl Clone for WlMessage {
    fn clone(&self) -> (r: WlMessage)
        ensures
            r@ == self@,
    {
        proof {
            use_type_invariant(self);
        }
        WlMessage::new(self.header.object_id, self.header.opcode, self.data.as_slice())
    }
}

/// One step of taking messages off the front of a byte stream: the message
/// that was taken, if any, and the bytes that stay buffered.
///
/// Nothing is taken, and every byte stays, while the buffer holds fewer than
/// eight bytes or fewer than the header at its front declares, and also
/// where that header declares less than its own eight bytes.
pub open spec fn demux_step(buf: Seq<u8>) -> (Option<MessageView>, Seq<u8>) {
    match parse_message(buf) {
        Ok(m) => (Some(m), buf.skip(8 + m.payload.len() as int)),
        Err(_) => (None, buf),
    }
}

/// Whether the header at the front of `buf` declares a message shorter than
/// a header, so that no further byte can ever complete it.
pub open spec fn malformed_front(buf: Seq<u8>) -> bool {
    parse_header(buf) matches Ok(h) && h.size < 8
}

/// While a message has arrived only in part, no message is reported and no
/// byte is taken.
pub proof fn lemma_demux_partial(m: MessageView, k: int)
    requires
        m.payload.len() <= WL_MESSAGE_MAX_PAYLOAD,
        0 <= k < message_wire(m).len(),
    ensures
        demux_step(message_wire(m).take(k)) == (None::<MessageView>, message_wire(m).take(k)),
        !malformed_front(message_wire(m).take(k)),
{
    let wire = message_wire(m);
    let part = wire.take(k);
    lemma_message_round_trip(m, Seq::empty());
    assert(wire + Seq::<u8>::empty() =~= wire);
    if k >= 8 {
        assert(part.subrange(0, 4) =~= wire.subrange(0, 4));
        assert(part.subrange(4, 6) =~= wire.subrange(4, 6));
        assert(part.subrange(6, 8) =~= wire.subrange(6, 8));
    }
}

/// Once a message has arrived in full it is reported, and exactly its bytes
/// are taken: what followed it stays buffered.
pub proof fn lemma_demux_complete(m: MessageView, rest: Seq<u8>)
    requires
        m.payload.len() <= WL_MESSAGE_MAX_PAYLOAD,
    ensures
        demux_step(message_wire(m) + rest) == (Some(m), rest),
{
    lemma_message_round_trip(m, rest);
    assert((message_wire(m) + rest).skip(8 + m.payload.len() as int) =~= rest);
}

/// Takes complete messages, one by one, off the front of the bytes that have
/// been read from the compositor so far.
#[derive(Debug)]
pub struct WlMessageIter {
    buffer: Vec<u8>,
}

impl View for WlMessageIter {
    type V = Seq<u8>;

    closed spec fn view(&self) -> Seq<u8> {
        self.buffer@
    }
}

impl WlMessageIter {
    /// Starts with the bytes in `buffer`.
    pub fn new(buffer: Vec<u8>) -> (it: WlMessageIter)
        ensures
            it@ == buffer@,
    {
        WlMessageIter { buffer }
    }

    /// Puts bytes that have just been read behind those already buffered.
    pub fn extend(&mut self, bytes: &[u8])
        ensures
            final(self)@ == old(self)@ + bytes@,
    {
        let mut i: usize = 0;
        while i < bytes.len()
            invariant
                i <= bytes@.len(),
                self.buffer@ == old(self).buffer@ + bytes@.take(i as int),
            decreases bytes@.len() - i,
        {
            self.buffer.push(bytes[i]);
            i += 1;
            assert(self.buffer@ =~= old(self).buffer@ + bytes@.take(i as int));
        }
        assert(bytes@.take(i as int) =~= bytes@);
    }

    /// The bytes that no message has been taken from yet.
    pub fn remaining(&self) -> (bytes: &[u8])
        ensures
            bytes@ == self@,
    {
        self.buffer.as_slice()
    }

    /// Whether the header at the front declares a message shorter than a
    /// header. No further byte can mend that: the stream is out of step.
    pub fn is_malformed(&self) -> (b: bool)
        ensures
            b == malformed_front(self@),
    {
        match WlMessageHeader::from_bytes(self.buffer.as_slice()) {
            Ok(h) => h.message_len() < WL_MESSAGE_HEADER_LEN,
            Err(_) => false,
        }
    }

    /// Takes the next message off the front of the buffer, if a whole one is
    /// there. Where none is, every byte stays buffered, so that the call can
    /// be made again after more bytes have come in.
    pub fn next(&mut self) -> (r: Option<WlMessage>)
        ensures
            (view_some(r), final(self)@) == demux_step(old(self)@),
            r is None ==> final(self)@ == old(self)@,
    {
        let message = match WlMessage::from_bytes(self.buffer.as_slice()) {
            Ok(m) => m,
            Err(_) => {
                return None;
            },
        };
        let len: usize = message.header().message_len();
        let rest = self.buffer.split_off(len);
        self.buffer = rest;
        assert(self.buffer@ =~= old(self).buffer@.skip(len as int));
        Some(message)
    }
}

} // verus!
