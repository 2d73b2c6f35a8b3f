//! Protocol strings.
//!
//! On the wire a string is a 32-bit length, the text, a zero byte that ends
//! it, and zero bytes up to the next 32-bit boundary. The length counts the
//! text and its terminator, not the padding.

use vstd::prelude::*;
use vstd::slice::slice_subrange;
use vstd::string::StringSliceAdditionalSpecFns;
use vstd::utf8::{decode_utf8, encode_utf8, valid_utf8};
use crate::protocol::error::{result_view, WlError, WlErrorView};
use crate::protocol::types::primitive::{
    get_u32, lemma_u32_wire_round_trip, put_u32, u32_unwire, u32_wire,
};
use crate::protocol::types::{lemma_roundup_4_monotonic, roundup_4, spec_roundup_4, zeros};

verus! {

/// Width in bytes of the length that precedes a string.
pub const WL_STRING_PREFIX_LEN: usize = 4;

/// The byte that ends a string.
pub const WL_NUL: u8 = 0;

/// What follows a string's length on the wire: the text, its terminator and
/// the padding.
pub open spec fn string_body(content: Seq<u8>) -> Seq<u8> {
    content + seq![0u8] + zeros(spec_roundup_4((content.len() + 1) as int) - (content.len() + 1))
}

/// Whether a text of `len` bytes can be sent: its length with the terminator
/// must fit the 32-bit prefix, and its wire form must fit in memory.
pub open spec fn string_fits(len: nat) -> bool {
    &&& len + 1 <= u32::MAX
    &&& 4 + spec_roundup_4((len + 1) as int) <= usize::MAX
}

/// The wire form of a string with the given text.
pub open spec fn string_wire(content: Seq<u8>) -> Seq<u8>
    recommends
        string_fits(content.len()),
{
    u32_wire((content.len() + 1) as u32) + string_body(content)
}

/// Whether `i` is the place of the first zero byte in `bytes`.
pub open spec fn is_first_zero(bytes: Seq<u8>, i: int) -> bool {
    &&& 0 <= i < bytes.len()
    &&& bytes[i] == 0
    &&& forall|j: int| 0 <= j < i ==> bytes[j] != 0
}

/// The bytes that stand before the first zero byte.
pub open spec fn until_zero(bytes: Seq<u8>) -> Seq<u8>
    recommends
        bytes.contains(0u8),
{
    bytes.take(choose|i: int| is_first_zero(bytes, i))
}

/// What decoding a string from the start of `buf` gives: its text and the
/// number of bytes it takes up, or the reason why there is none.
pub open spec fn parse_string(buf: Seq<u8>) -> Result<(Seq<u8>, usize), WlErrorView> {
    if buf.len() < 4 {
        Err(WlErrorView::TruncatedBuffer)
    } else {
        let declared = u32_unwire(buf.subrange(0, 4)) as int;
        let end = 4 + spec_roundup_4(declared);
        if buf.len() < end {
            Err(WlErrorView::TruncatedBuffer)
        } else if !buf.subrange(4, 4 + declared).contains(0u8) {
            Err(WlErrorView::MissingTerminator)
        } else {
            Ok((until_zero(buf.subrange(4, 4 + declared)), end as usize))
        }
    }
}

/// There is one first zero byte at most, so finding it settles
/// [`until_zero`].
pub proof fn lemma_until_zero(bytes: Seq<u8>, i: int)
    requires
        is_first_zero(bytes, i),
    ensures
        bytes.contains(0u8),
        until_zero(bytes) == bytes.take(i),
{
    let k = choose|k: int| is_first_zero(bytes, k);
    assert(is_first_zero(bytes, k));
    if k < i {
        assert(bytes[k] != 0);
    }
    if i < k {
        assert(bytes[i] != 0);
    }
}

/// A text without zero bytes survives the wire: decoding its wire form gives
/// the text back and takes up the wire form and no more, whatever follows it
/// in the buffer.
pub proof fn lemma_string_round_trip(content: Seq<u8>, rest: Seq<u8>)
    requires
        string_fits(content.len()),
        !content.contains(0u8),
        string_wire(content).len() + rest.len() <= usize::MAX,
    ensures
        string_wire(content).len() == 4 + spec_roundup_4((content.len() + 1) as int),
        parse_string(string_wire(content) + rest) == Ok::<_, WlErrorView>(
            (content, string_wire(content).len() as usize),
        ),
{
    let declared = (content.len() + 1) as u32;
    let wire = string_wire(content);
    let buf = wire + rest;
    lemma_u32_wire_round_trip(declared);
    assert(buf.subrange(0, 4) =~= u32_wire(declared));
    let span = buf.subrange(4, 4 + declared);
    assert(span =~= content + seq![0u8]);
    assert forall|j: int| 0 <= j < content.len() implies span[j] != 0 by {
        assert(span[j] == content[j]);
        assert(content.contains(content[j]));
    }
    assert(is_first_zero(span, content.len() as int));
    lemma_until_zero(span, content.len() as int);
    assert(span.take(content.len() as int) =~= content);
}

/// What a string decodes to does not depend on its padding, nor on anything
/// else behind its terminator: two buffers that agree on the length prefix
/// and on the bytes that it counts, and that are both long enough to hold
/// the padded string, decode alike.
pub proof fn lemma_parse_string_ignores_padding(a: Seq<u8>, b: Seq<u8>)
    requires
        a.len() >= 4,
        a.len() >= 4 + spec_roundup_4(u32_unwire(a.subrange(0, 4)) as int),
        b.len() >= 4 + spec_roundup_4(u32_unwire(a.subrange(0, 4)) as int),
        a.take(4 + u32_unwire(a.subrange(0, 4))) == b.take(4 + u32_unwire(a.subrange(0, 4))),
    ensures
        parse_string(a) == parse_string(b),
{
    let declared = u32_unwire(a.subrange(0, 4)) as int;
    let shared = a.take(4 + declared);
    assert(a.subrange(0, 4) =~= shared.subrange(0, 4));
    assert(b.subrange(0, 4) =~= shared.subrange(0, 4));
    assert(a.subrange(4, 4 + declared) =~= shared.subrange(4, 4 + declared));
    assert(b.subrange(4, 4 + declared) =~= shared.subrange(4, 4 + declared));
}

/// A string of the Wayland protocol: a run of bytes, by convention UTF-8.
///
/// The value holds the bytes as they go on the wire, terminator and padding
/// included; its view is the text alone.
#[derive(Debug, PartialEq, Eq)]
pub struct WlString {
    /// Length of the text and its terminator.
    size: u32,
    /// The text, its terminator and the padding.
    data: Vec<u8>,
}

impl View for WlString {
    type V = Seq<u8>;

    closed spec fn view(&self) -> Seq<u8> {
        self.data@.take(self.size - 1)
    }
}

impl WlString {
    #[verifier::type_invariant]
    spec fn well_formed(&self) -> bool {
        &&& self.size >= 1
        &&& string_fits((self.size - 1) as nat)
        &&& self.data@.len() == spec_roundup_4(self.size as int)
        &&& self.data@ == string_body(self.data@.take(self.size - 1))
    }

    /// A string with the given bytes as its text.
    pub fn from_content(content: &[u8]) -> (s: WlString)
        requires
            string_fits(content@.len()),
        ensures
            s@ == content@,
    {
        let len: usize = content.len();
        let padded: usize = roundup_4(len + 1);
        let mut data: Vec<u8> = Vec::new();
        let mut i: usize = 0;
        while i < len
            invariant
                i <= len,
                len == content@.len(),
                data@ == content@.take(i as int),
            decreases len - i,
        {
            data.push(content[i]);
            i += 1;
            assert(data@ =~= content@.take(i as int));
        }
        data.push(WL_NUL);
        while data.len() < padded
            invariant
                len + 1 <= data@.len() <= padded,
                len == content@.len(),
                data@ == content@ + seq![0u8] + zeros(data@.len() - (len + 1)),
            decreases padded - data@.len(),
        {
            data.push(0);
            assert(data@ =~= content@ + seq![0u8] + zeros(data@.len() - (len + 1)));
        }
        assert(data@.take(len as int) =~= content@);
        WlString { size: (len + 1) as u32, data }
    }

    /// A string with the UTF-8 bytes of `s` as its text.
    pub fn new(s: &str) -> (r: WlString)
        requires
            string_fits(s.spec_bytes().len()),
        ensures
            r@ == s.spec_bytes(),
    {
        WlString::from_content(s.as_bytes())
    }

    /// A string with the text of `s`.
    pub fn from_string(s: String) -> (r: WlString)
        requires
            string_fits(encode_utf8(s@).len()),
        ensures
            r@ == encode_utf8(s@),
    {
        WlString::new(s.as_str())
    }

    /// The number of bytes the string takes up on the wire, its length
    /// prefix included.
    pub fn buffer_size(&self) -> (n: usize)
        ensures
            n == string_wire(self@).len(),
            n == 4 + spec_roundup_4((self@.len() + 1) as int),
    {
        proof {
            use_type_invariant(self);
        }
        WL_STRING_PREFIX_LEN + self.data.len()
    }

    /// The text as bytes.
    pub fn as_bytes(&self) -> (content: &[u8])
        ensures
            content@ == self@,
            string_fits(self@.len()),
    {
        proof {
            use_type_invariant(self);
        }
        slice_subrange(self.data.as_slice(), 0, (self.size - 1) as usize)
    }

    /// The text as a string slice, or the empty string where the bytes are
    /// not UTF-8.
    pub fn as_str(&self) -> (s: &str)
        ensures
            valid_utf8(self@) ==> s.spec_bytes() == self@ && s@ == decode_utf8(self@),
            !valid_utf8(self@) ==> s@ == Seq::<char>::empty(),
    {
        match str_from_utf8(self.as_bytes()) {
            Some(s) => {
                proof {
                    vstd::utf8::encode_utf8_decode_utf8(s@);
                }
                s
            },
            None => {
                proof {
                    reveal_strlit("");
                }
                ""
            },
        }
    }

    /// The text as an owned string, or the empty string where the bytes are
    /// not UTF-8.
    pub fn to_string(&self) -> (s: String)
        ensures
            valid_utf8(self@) ==> s@ == decode_utf8(self@),
            !valid_utf8(self@) ==> s@ == Seq::<char>::empty(),
    {
        self.as_str().to_owned()
    }

    /// The wire form of the string.
    pub fn to_bytes(&self) -> (out: Vec<u8>)
        ensures
            out@ == string_wire(self@),
    {
        proof {
            use_type_invariant(self);
        }
        let mut out: Vec<u8> = Vec::new();
        put_u32(&mut out, self.size);
        let ghost prefix = out@;
        let mut i: usize = 0;
        while i < self.data.len()
            invariant
                i <= self.data@.len(),
                out@ == prefix + self.data@.take(i as int),
            decreases self.data@.len() - i,
        {
            out.push(self.data[i]);
            i += 1;
            assert(out@ =~= prefix + self.data@.take(i as int));
        }
        assert(self.data@.take(i as int) =~= self.data@);
        out
    }

    /// Reads a string from the start of `buf`. Gives the string and the
    /// number of bytes it took up, so that the caller can go on behind it.
    pub fn from_bytes(buf: &[u8]) -> (r: Result<(WlString, usize), WlError>)
        ensures
            result_view(r) == parse_string(buf@),
    {
        let declared: usize = match get_u32(buf, 0) {
            Ok(v) => v as usize,
            Err(e) => {
                return Err(e);
            },
        };
        let avail: usize = buf.len() - WL_STRING_PREFIX_LEN;
        if declared > avail {
            return Err(WlError::TruncatedBuffer);
        }
        let padded: usize = roundup_4(declared);
        if padded > avail {
            return Err(WlError::TruncatedBuffer);
        }
        let ghost span = buf@.subrange(4, 4 + declared);
        let mut i: usize = 0;
        while i < declared && buf[WL_STRING_PREFIX_LEN + i] != WL_NUL
            invariant
                i <= declared,
                4 + declared <= buf.len(),
                span == buf@.subrange(4, 4 + declared),
                forall|j: int| 0 <= j < i ==> span[j] != 0,
            decreases declared - i,
        {
            i += 1;
        }
        if i == declared {
            assert(!span.contains(0u8));
            return Err(WlError::MissingTerminator);
        }
        proof {
            assert(is_first_zero(span, i as int));
            lemma_until_zero(span, i as int);
            lemma_roundup_4_monotonic(i + 1, declared as int);
        }
        let content = slice_subrange(buf, WL_STRING_PREFIX_LEN, WL_STRING_PREFIX_LEN + i);
        assert(content@ =~= span.take(i as int));
        let s = WlString::from_content(content);
        Ok((s, WL_STRING_PREFIX_LEN + padded))
    }
}

impl Default for WlString {
    /// The empty string.
    fn default() -> (r: WlString)
        ensures
            r@ == Seq::<u8>::empty(),
    {
        let content: Vec<u8> = Vec::new();
        WlString::from_content(content.as_slice())
    }
}

impl Clone for WlString {
    fn clone(&self) -> (r: WlString)
        ensures
            r@ == self@,
    {
        proof {
            use_type_invariant(self);
        }
        WlString::from_content(self.as_bytes())
    }
}

/// `core::str::from_utf8`: the bytes as a string slice where they are
/// well-formed UTF-8, and nothing where they are not.
#[verifier::external_body]
fn str_from_utf8(bytes: &[u8]) -> (r: Option<&str>)
    ensures
        match r {
            Some(s) => valid_utf8(bytes@) && s.spec_bytes() == bytes@,
            None => !valid_utf8(bytes@),
        },
{
    core::str::from_utf8(bytes).ok()
}

} // verus!
