//! Marshaling layer: conversions between owned strings and the primitive
//! encodings that cross the native boundary.
//!
//! Inbound, a nullable pointer argument is modelled as an [`InboundStr`]:
//! either null or a read-only view of the pointed-to bytes, copied at the
//! boundary and never freed there. Outbound, a string becomes an
//! [`OutboundBuf`]: a byte sequence free of interior null bytes, handed to the
//! native side with a terminating null appended.

use vstd::prelude::*;
use vstd::seq_lib::lemma_seq_concat_contains_all_elements;
use vstd::string::StrSliceExecFns;
use vstd::utf8::{encode_scalar, encode_utf8, decode_utf8, valid_utf8, char_is_scalar,
    char_u32_cast, encode_utf8_valid_utf8, encode_utf8_decode_utf8, has_width_1_encoding,
    has_width_2_encoding, has_width_3_encoding, leading_byte_width_1, leading_byte_width_2,
    leading_byte_width_3, leading_byte_width_4, last_continuation_byte,
    second_last_continuation_byte, third_last_continuation_byte};

verus! {

/// What `String::from_utf8_lossy` returns for a byte sequence: the bytes
/// decoded as UTF-8, with every invalid sequence replaced. The replacement
/// scheme is not restated here; the one fact relied on is stated where the
/// call is made.
pub uninterp spec fn lossy_of(bytes: Seq<u8>) -> Seq<char>;

/// Relies on `String::from_utf8_lossy`: decoding is total (invalid sequences
/// are replaced with U+FFFD, the call never fails), its result depends on the
/// bytes alone, and bytes that are valid UTF-8 decode to exactly the string
/// they encode.
#[verifier::external_body]
fn utf8_lossy(bytes: &Vec<u8>) -> (r: String)
    ensures
        r@ == lossy_of(bytes@),
        valid_utf8(bytes@) ==> r@ == decode_utf8(bytes@),
{
    String::from_utf8_lossy(bytes.as_slice()).into_owned()
}

/// A string-shaped argument arriving from the native side: a nullable pointer,
/// read as either null or a copied view of the bytes up to the terminator.
/// The native side keeps ownership of the original buffer.
#[derive(Debug, Clone, PartialEq, Eq)]
pub enum InboundStr {
    Null,
    Bytes(Vec<u8>),
}

/// A string encoded for an outbound native call: the payload holds no interior
/// null byte, so appending a single terminating null yields a well-formed
/// null-terminated buffer. The buffer is owned by the caller for the duration
/// of the call only.
#[derive(Debug, Clone, PartialEq, Eq)]
pub struct OutboundBuf {
    payload: Vec<u8>,
}

/// The single way encoding a string for the boundary can fail: the boundary
/// format cannot represent an interior null byte, and truncating silently is
/// not acceptable.
#[derive(Debug, Clone, Copy, PartialEq, Eq, Structural)]
pub enum EncodeError {
    InteriorNul,
}

impl OutboundBuf {
    /// The encoded bytes, without the terminating null.
    pub closed spec fn payload_bytes(&self) -> Seq<u8> {
        self.payload@
    }

    /// Well-formed: representable at the boundary, no interior null byte.
    pub open spec fn wf(&self) -> bool {
        !self.payload_bytes().contains(0u8)
    }

    /// The byte sequence the native side sees: payload plus terminator.
    pub open spec fn terminated_bytes(&self) -> Seq<u8> {
        self.payload_bytes().push(0u8)
    }

    /// The payload bytes, for the unverified edge to hand to the native call.
    pub fn bytes(&self) -> (r: &Vec<u8>)
        ensures
            r@ == self.payload_bytes(),
    {
        &self.payload
    }
}

/// The characters an inbound value decodes to: null decodes to the empty
/// string, bytes decode lossily.
pub open spec fn inbound_chars(v: InboundStr) -> Seq<char> {
    match v {
        InboundStr::Null => Seq::<char>::empty(),
        InboundStr::Bytes(bytes) => lossy_of(bytes@),
    }
}

/// What an inbound value means as an optional record field: null or an empty
/// decoding is "absent"; anything else is the decoded, non-empty string.
pub open spec fn inbound_field(v: InboundStr) -> Option<Seq<char>> {
    if inbound_chars(v).len() == 0 {
        None
    } else {
        Some(inbound_chars(v))
    }
}

/// The view of an optional owned string, for stating contracts about optional
/// record fields.
pub open spec fn opt_chars(o: Option<String>) -> Option<Seq<char>> {
    match o {
        Option::None => None,
        Option::Some(s) => Some(s@),
    }
}

/// Converts an inbound boundary value to an owned string: null becomes the
/// empty string, bytes are decoded lossily rather than rejected, since the
/// native side cannot be asked to retry a callback it already fired.
pub fn take_string(v: InboundStr) -> (r: String)
    ensures
        r@ == inbound_chars(v),
        v matches InboundStr::Bytes(bytes) ==> (valid_utf8(bytes@) ==> r@ == decode_utf8(bytes@)),
{
    match v {
        InboundStr::Null => String::new(),
        InboundStr::Bytes(bytes) => utf8_lossy(&bytes),
    }
}

/// Normalizes a decoded string into an optional record field: the empty string
/// is semantically "absent", anything else is kept as-is.
pub fn opt_field(s: String) -> (r: Option<String>)
    ensures
        opt_chars(r) == (if s@.len() == 0 { None } else { Some::<Seq<char>>(s@) }),
{
    if s.as_str().is_empty() {
        None
    } else {
        Some(s)
    }
}

/// Decodes an inbound boundary value directly into an optional record field:
/// null or an empty decoding is absent, anything else is the decoded string.
pub fn take_field(v: InboundStr) -> (r: Option<String>)
    ensures
        opt_chars(r) == inbound_field(v),
        r matches Some(s) ==> s@.len() > 0,
{
    opt_field(take_string(v))
}

/// Encodes a string for an outbound native call. Fails, before anything is
/// handed to the boundary, exactly when the string's UTF-8 encoding holds a
/// null byte, which the null-terminated boundary format cannot represent.
pub fn encode_string(s: &str) -> (r: Result<OutboundBuf, EncodeError>)
    ensures
        r is Ok <==> !encode_utf8(s@).contains(0u8),
        r is Ok <==> !s@.contains('\0'),
        r matches Ok(b) ==> b.payload_bytes() == encode_utf8(s@) && b.wf(),
        r matches Err(e) ==> e == EncodeError::InteriorNul,
{
    proof {
        lemma_nul_byte_iff_nul_char(s@);
    }
    let bytes: Vec<u8> = s.as_bytes_vec();
    let mut i: usize = 0;
    while i < bytes.len()
        invariant
            bytes@ == encode_utf8(s@),
            i <= bytes@.len(),
            forall|j: int| 0 <= j < i ==> bytes@[j] != 0u8,
        decreases bytes@.len() - i,
    {
        if bytes[i] == 0u8 {
            proof {
                assert(bytes@.contains(0u8));
                lemma_nul_byte_iff_nul_char(s@);
            }
            return Err(EncodeError::InteriorNul);
        }
        i = i + 1;
    }
    Ok(OutboundBuf { payload: bytes })
}

/// A one-element sequence contains exactly its element.
proof fn lemma_singleton_contains<A>(x: A, y: A)
    ensures
        seq![x].contains(y) <==> x == y,
{
    if seq![x].contains(y) {
        let i = choose|i: int| 0 <= i < seq![x].len() && seq![x][i] == y;
        assert(i == 0);
    }
    if x == y {
        assert(seq![x][0] == y);
    }
}

/// A non-empty sequence contains an element exactly when its head is that
/// element or its tail contains it.
proof fn lemma_contains_split<A>(s: Seq<A>, x: A)
    requires
        s.len() > 0,
    ensures
        s.contains(x) <==> (s[0] == x || s.drop_first().contains(x)),
{
    assert(s =~= seq![s[0]] + s.drop_first());
    lemma_seq_concat_contains_all_elements(seq![s[0]], s.drop_first(), x);
    lemma_singleton_contains(s[0], x);
}

/// A scalar's UTF-8 encoding holds a zero byte exactly when the scalar is
/// the null character: the one-byte encoding is the scalar itself, and every
/// byte of a multi-byte encoding has a high bit set.
proof fn lemma_encode_scalar_nul(c: char)
    ensures
        encode_scalar(c as u32).contains(0u8) <==> c == '\0',
{
    char_is_scalar(c);
    let s = c as u32;
    let e = encode_scalar(s);
    assert('\0' as u32 == 0);
    if has_width_1_encoding(s) {
        assert(s <= 0x7F ==> (((s & 0x7F) as u8) == 0u8 <==> s == 0)) by (bit_vector);
        assert(e == seq![leading_byte_width_1(s)]);
        lemma_singleton_contains(leading_byte_width_1(s), 0u8);
        if s == 0 {
            char_u32_cast(c, 0u32);
            char_u32_cast('\0', 0u32);
        }
    } else {
        assert(forall|y: u8| (0xC0u8 | y) != 0u8) by (bit_vector);
        assert(forall|y: u8| (0xE0u8 | y) != 0u8) by (bit_vector);
        assert(forall|y: u8| (0xF0u8 | y) != 0u8) by (bit_vector);
        assert(forall|y: u8| (0x80u8 | y) != 0u8) by (bit_vector);
        assert(s != 0);
        if has_width_2_encoding(s) {
            assert(e == seq![leading_byte_width_2(s), last_continuation_byte(s)]);
        } else if has_width_3_encoding(s) {
            assert(e == seq![
                leading_byte_width_3(s),
                second_last_continuation_byte(s),
                last_continuation_byte(s),
            ]);
        } else {
            assert(e == seq![
                leading_byte_width_4(s),
                third_last_continuation_byte(s),
                second_last_continuation_byte(s),
                last_continuation_byte(s),
            ]);
        }
        assert(forall|i: int| 0 <= i < e.len() ==> e[i] != 0u8);
        if e.contains(0u8) {
            let i = choose|i: int| 0 <= i < e.len() && e[i] == 0u8;
        }
    }
}

/// Law: a string's UTF-8 encoding holds a null byte exactly when the string
/// holds the null character, so the byte-level test the encoder performs is
/// the string-level condition the boundary format imposes.
pub proof fn lemma_nul_byte_iff_nul_char(s: Seq<char>)
    ensures
        encode_utf8(s).contains(0u8) <==> s.contains('\0'),
    decreases s.len(),
{
    if s.len() > 0 {
        lemma_encode_scalar_nul(s[0]);
        lemma_nul_byte_iff_nul_char(s.drop_first());
        lemma_seq_concat_contains_all_elements(
            encode_scalar(s[0] as u32),
            encode_utf8(s.drop_first()),
            0u8,
        );
        lemma_contains_split(s, '\0');
    }
}

/// Law: a string's boundary encoding is valid UTF-8 and decodes back to
/// exactly the original characters, so a round trip through the boundary
/// (encode, then lossy-decode on the way back) is the identity on strings the
/// boundary can represent.
pub proof fn lemma_encode_decode_roundtrip(s: Seq<char>)
    ensures
        valid_utf8(encode_utf8(s)),
        decode_utf8(encode_utf8(s)) == s,
{
    encode_utf8_valid_utf8(s);
    encode_utf8_decode_utf8(s);
}

} // verus!
