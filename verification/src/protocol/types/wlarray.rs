//! Protocol arrays.
//!
//! On the wire an array is a 32-bit length, that many bytes of any content,
//! and padding up to the next 32-bit boundary. Nothing ends it but its
//! length.

use vstd::prelude::*;
use vstd::slice::slice_subrange;
use crate::protocol::error::{result_view, WlError, WlErrorView};
use crate::protocol::types::primitive::{
    get_u32, lemma_u32_wire_round_trip, put_u32, u32_unwire, u32_wire,
};
use crate::protocol::types::{roundup_4, spec_roundup_4, zeros};

verus! {

/// Width in bytes of the length that precedes an array.
pub const WL_ARRAY_PREFIX_LEN: usize = 4;

/// What follows an array's length on the wire: the content and the padding.
pub open spec fn array_body(content: Seq<u8>) -> Seq<u8> {
    content + zeros(spec_roundup_4(content.len() as int) - content.len())
}

/// Whether a content of `len` bytes can be sent: its length must fit the
/// 32-bit prefix, and its wire form must fit in memory.
pub open spec fn array_fits(len: nat) -> bool {
    &&& len <= u32::MAX
    &&& 4 + spec_roundup_4(len as int) <= usize::MAX
}

/// The wire form of an array with the given content.
pub open spec fn array_wire(content: Seq<u8>) -> Seq<u8>
    recommends
        array_fits(content.len()),
{
    u32_wire(content.len() as u32) + array_body(content)
}

/// What decoding an array from the start of `buf` gives: its content and the
/// number of bytes it takes up, or the reason why there is none.
pub open spec fn parse_array(buf: Seq<u8>) -> Result<(Seq<u8>, usize), WlErrorView> {
    if buf.len() < 4 {
        Err(WlErrorView::TruncatedBuffer)
    } else {
        let declared = u32_unwire(buf.subrange(0, 4)) as int;
        let end = 4 + spec_roundup_4(declared);
        if buf.len() < end {
            Err(WlErrorView::TruncatedBuffer)
        } else {
            Ok((buf.subrange(4, 4 + declared), end as usize))
        }
    }
}

/// Every content survives the wire: decoding its wire form gives the content
/// back and takes up the wire form and no more, whatever follows it in the
/// buffer.
pub proof fn lemma_array_round_trip(content: Seq<u8>, rest: Seq<u8>)
    requires
        array_fits(content.len()),
        array_wire(content).len() + rest.len() <= usize::MAX,
    ensures
        array_wire(content).len() == 4 + spec_roundup_4(content.len() as int),
        parse_array(array_wire(content) + rest) == Ok::<_, WlErrorView>(
            (content, array_wire(content).len() as usize),
        ),
{
    let declared = content.len() as u32;
    let buf = array_wire(content) + rest;
    lemma_u32_wire_round_trip(declared);
    assert(buf.subrange(0, 4) =~= u32_wire(declared));
    assert(buf.subrange(4, 4 + declared) =~= content);
}

/// An array of the Wayland protocol: a run of bytes that the protocol does
/// not look into.
///
/// The value holds the bytes as they go on the wire, padding included; its
/// view is the content alone.
#[derive(Debug, PartialEq, Eq)]
pub struct WlArray {
    /// Length of the content.
    size: u32,
    /// The content and the padding.
    data: Vec<u8>,
}

impl View for WlArray {
    type V = Seq<u8>;

    closed spec fn view(&self) -> Seq<u8> {
        self.data@.take(self.size as int)
    }
}

impl WlArray {
    #[verifier::type_invariant]
    spec fn well_formed(&self) -> bool {
        &&& array_fits(self.size as nat)
        &&& self.data@.len() == spec_roundup_4(self.size as int)
        &&& self.data@ == array_body(self.data@.take(self.size as int))
    }

    /// An array with a copy of `buffer` as its content.
    pub fn new(buffer: &[u8]) -> (a: WlArray)
        requires
            array_fits(buffer@.len()),
        ensures
            a@ == buffer@,
    {
        let len: usize = buffer.len();
        let padded: usize = roundup_4(len);
        let mut data: Vec<u8> = Vec::new();
        let mut i: usize = 0;
        while i < len
            invariant
                i <= len,
                len == buffer@.len(),
                data@ == buffer@.take(i as int),
            decreases len - i,
        {
            data.push(buffer[i]);
            i += 1;
            assert(data@ =~= buffer@.take(i as int));
        }
        assert(buffer@.take(len as int) =~= buffer@);
        while data.len() < padded
            invariant
                len <= data@.len() <= padded,
                len == buffer@.len(),
                data@ == buffer@ + zeros(data@.len() - len),
            decreases padded - data@.len(),
        {
            data.push(0);
            assert(data@ =~= buffer@ + zeros(data@.len() - len));
        }
        assert(data@.take(len as int) =~= buffer@);
        WlArray { size: len as u32, data }
    }

    /// The number of bytes the array takes up on the wire, its length prefix
    /// included.
    pub fn buffer_size(&self) -> (n: usize)
        ensures
            n == array_wire(self@).len(),
            n == 4 + spec_roundup_4(self@.len() as int),
    {
        proof {
            use_type_invariant(self);
        }
        WL_ARRAY_PREFIX_LEN + self.data.len()
    }

    /// The content, without the padding.
    pub fn as_slice(&self) -> (content: &[u8])
        ensures
            content@ == self@,
            array_fits(self@.len()),
    {
        proof {
            use_type_invariant(self);
        }
        slice_subrange(self.data.as_slice(), 0, self.size as usize)
    }

    /// The wire form of the array.
    pub fn to_bytes(&self) -> (out: Vec<u8>)
        ensures
            out@ == array_wire(self@),
    {
        proof {
            use_type_invariant(self);
        }
        let mut out: Vec<u8> = Vec::new();
        put_u32(&mut out, self.size);
        let ghost prefix = out@;
        let mut i: usize = 0;
        while i < self.data.len()
            invariant
                i <= self.data@.len(),
                out@ == prefix + self.data@.take(i as int),
            decreases self.data@.len() - i,
        {
            out.push(self.data[i]);
            i += 1;
            assert(out@ =~= prefix + self.data@.take(i as int));
        }
        assert(self.data@.take(i as int) =~= self.data@);
        out
    }

    /// Reads an array from the start of `buf`. Gives the array and the
    /// number of bytes it took up, so that the caller can go on behind it.
    pub fn from_bytes(buf: &[u8]) -> (r: Result<(WlArray, usize), WlError>)
        ensures
            result_view(r) == parse_array(buf@),
    {
        let declared: usize = match get_u32(buf, 0) {
            Ok(v) => v as usize,
            Err(e) => {
                return Err(e);
            },
        };
        let avail: usize = buf.len() - WL_ARRAY_PREFIX_LEN;
        if declared > avail {
            return Err(WlError::TruncatedBuffer);
        }
        let padded: usize = roundup_4(declared);
        if padded > avail {
            return Err(WlError::TruncatedBuffer);
        }
        let content = slice_subrange(buf, WL_ARRAY_PREFIX_LEN, WL_ARRAY_PREFIX_LEN + declared);
        let a = WlArray::new(content);
        Ok((a, WL_ARRAY_PREFIX_LEN + padded))
    }
}

impl Clone for WlArray {
    fn clone(&self) -> (r: WlArray)
        ensures
            r@ == self@,
    {
        proof {
            use_type_invariant(self);
        }
        WlArray::new(self.as_slice())
    }
}

} // verus!
