//! The payload decoder: hexadecimal text to an ABI tuple of three strings.
//!
//! The digits are read here. The bytes are decoded by `ethabi`, after a check
//! that each of the three strings lies inside the data: what fails that check
//! is refused here, with a cause of its own.

use crate::errors::{ErrorKind, Fault, PipelineError};
use crate::hexcode::{
    hex_bytes, hex_cause, hex_cause_text, hex_decode, hex_fault_of, hex_string, is_hex,
    law_hex_round_trip, lemma_hex_fault_unique, lemma_hex_string_bytes,
};
use crate::text::texts;
use vstd::prelude::*;
use vstd::string::StringSliceAdditionalSpecFns;

verus! {

/// The number of strings in a payload.
pub const PAYLOAD_FIELDS: usize = 3;

/// The decoded payload of a mint or of an event.
#[derive(Debug, Clone, PartialEq, Eq)]
pub struct Payload {
    /// Reserved: a version tag.
    pub version: String,
    /// The address of the gateway to the content store.
    pub gateway: String,
    /// The identifier of the linked dataset.
    pub cid: String,
}

/// A payload as a mathematical value.
pub struct PayloadView {
    pub version: Seq<char>,
    pub gateway: Seq<char>,
    pub cid: Seq<char>,
}

impl View for Payload {
    type V = PayloadView;

    open spec fn view(&self) -> PayloadView {
        PayloadView { version: self.version@, gateway: self.gateway@, cid: self.cid@ }
    }
}

/// What `ethabi::decode` makes of `data` when it is asked for `count`
/// strings: the strings, or the message of its error.
pub uninterp spec fn abi_strings(count: nat, data: Seq<u8>) -> Result<Seq<Seq<char>>, Seq<char>>;

/// The views of a `Result` of decoded fields.
pub open spec fn fields_view(fields: Result<Vec<String>, String>) -> Result<
    Seq<Seq<char>>,
    Seq<char>,
> {
    match fields {
        Ok(strings) => Ok(texts(strings@)),
        Err(cause) => Err(cause@),
    }
}

/// The number that the last four bytes of the 32-byte word at `at` spell,
/// the most significant byte first.
pub open spec fn word_tail(data: Seq<u8>, at: int) -> int {
    data[at + 28] * 0x100_0000 + data[at + 29] * 0x1_0000 + data[at + 30] * 0x100 + data[at + 31]
}

/// Whether the string of place `index` lies inside the data: its head word,
/// the length word at the offset that the head word gives, and as many bytes
/// behind it as the length word gives.
pub open spec fn field_fits(data: Seq<u8>, index: int) -> bool {
    &&& 32 * index + 32 <= data.len()
    &&& word_tail(data, 32 * index) + 32 <= data.len()
    &&& word_tail(data, 32 * index) + 32 + word_tail(data, word_tail(data, 32 * index))
        <= data.len()
}

/// Whether each of the first `count` strings lies inside the data.
pub open spec fn fields_fit(count: nat, data: Seq<u8>) -> bool {
    forall|i: int| 0 <= i < count ==> field_fits(data, i)
}

fn word_tail_at(data: &[u8], at: usize) -> (res: u64)
    requires
        at + 32 <= data@.len() <= usize::MAX,
    ensures
        res == word_tail(data@, at as int),
        res <= 0xffff_ffff,
{
    let b0: u64 = data[at + 28] as u64;
    let b1: u64 = data[at + 29] as u64;
    let b2: u64 = data[at + 30] as u64;
    let b3: u64 = data[at + 31] as u64;
    b0 * 0x100_0000 + b1 * 0x1_0000 + b2 * 0x100 + b3
}

/// Tells whether each of the first `count` strings lies inside the data.
pub fn fields_in_range(count: usize, data: &[u8]) -> (res: bool)
    ensures
        res == fields_fit(count as nat, data@),
{
    let len: usize = data.len();
    let mut i: usize = 0;
    while i < count
        invariant
            i <= count,
            len == data@.len(),
            forall|j: int| 0 <= j < i ==> field_fits(data@, j),
        decreases count - i,
    {
        if i >= len / 32 {
            assert(!field_fits(data@, i as int));
            return false;
        }
        let offset: u64 = word_tail_at(data, 32 * i);
        if offset > len as u64 || len as u64 - offset < 32 {
            assert(!field_fits(data@, i as int));
            return false;
        }
        let length: u64 = word_tail_at(data, offset as usize);
        if len as u64 - offset - 32 < length {
            assert(!field_fits(data@, i as int));
            return false;
        }
        assert(field_fits(data@, i as int));
        i += 1;
    }
    true
}

/// `ethabi::decode` with `count` parameters of type string: the decoded
/// strings in order, or the message of the error it gave. The result is
/// named, not described. The call is made only on data in which every string
/// lies inside the data: the decoder adds nothing else than an offset, 32 and
/// a length, so none of its sums leaves the length of the data.
#[verifier::external_body]
fn abi_decode_strings(count: usize, data: &[u8]) -> (res: Result<Vec<String>, String>)
    requires
        fields_fit(count as nat, data@),
    ensures
        fields_view(res) == abi_strings(count as nat, data@),
{
    let kinds = vec![ethabi::ParamType::String; count];
    match ethabi::decode(&kinds, data) {
        Ok(tokens) => Ok(tokens.iter().map(|token| token.to_string()).collect()),
        Err(e) => Err(e.to_string()),
    }
}

/// The cause that is reported when the decoder hands back another number of
/// fields than a payload has.
pub open spec fn arity_cause() -> Seq<char> {
    "expected three strings"@
}

/// The payload that decoded fields stand for: three strings are a payload,
/// anything else is a failure of the ABI step.
pub open spec fn payload_of(fields: Result<Seq<Seq<char>>, Seq<char>>) -> Result<
    PayloadView,
    Fault,
> {
    match fields {
        Ok(strings) => if strings.len() == PAYLOAD_FIELDS {
            Ok(PayloadView { version: strings[0], gateway: strings[1], cid: strings[2] })
        } else {
            Err(Fault { kind: ErrorKind::AbiShape, cause: arity_cause() })
        },
        Err(cause) => Err(Fault { kind: ErrorKind::AbiShape, cause }),
    }
}

/// The cause that is reported for data in which a string does not lie
/// inside the data.
pub open spec fn range_cause() -> Seq<char> {
    "a string lies outside the data"@
}

/// The payload that bytes stand for: they must hold three strings inside
/// the data, and must decode as three ABI strings.
pub open spec fn abi_payload(bytes: Seq<u8>) -> Result<PayloadView, Fault> {
    if fields_fit(PAYLOAD_FIELDS as nat, bytes) {
        payload_of(abi_strings(PAYLOAD_FIELDS as nat, bytes))
    } else {
        Err(Fault { kind: ErrorKind::AbiShape, cause: range_cause() })
    }
}

/// The payload that a hexadecimal text stands for. The text is read as its
/// UTF-8 bytes; these must be hexadecimal digits, and the bytes they spell must
/// decode as three ABI strings.
pub open spec fn decoded_payload(data: Seq<char>) -> Result<PayloadView, Fault> {
    let text = vstd::utf8::encode_utf8(data);
    if is_hex(text) {
        abi_payload(hex_bytes(text))
    } else {
        Err(Fault { kind: ErrorKind::HexDecode, cause: hex_cause(hex_fault_of(text)) })
    }
}

/// The views of a `Result` of a payload.
pub open spec fn payload_result_view(res: Result<Payload, PipelineError>) -> Result<
    PayloadView,
    Fault,
> {
    match res {
        Ok(payload) => Ok(payload@),
        Err(e) => Err(e@),
    }
}

/// Makes a payload of what the ABI decoder returned.
pub fn payload_from_fields(fields: Result<Vec<String>, String>) -> (res: Result<
    Payload,
    PipelineError,
>)
    ensures
        payload_result_view(res) == payload_of(fields_view(fields)),
{
    match fields {
        Ok(strings) => {
            if strings.len() == PAYLOAD_FIELDS {
                Ok(
                    Payload {
                        version: strings[0].clone(),
                        gateway: strings[1].clone(),
                        cid: strings[2].clone(),
                    },
                )
            } else {
                Err(
                    PipelineError::new(
                        ErrorKind::AbiShape,
                        String::from_str("expected three strings"),
                    ),
                )
            }
        },
        Err(cause) => Err(PipelineError::new(ErrorKind::AbiShape, cause)),
    }
}

/// Decodes bytes as three ABI strings. Bytes in which one of the three
/// strings does not lie inside the data are refused here; the others are
/// handed to the ABI decoder.
pub fn decode_fields(bytes: &[u8]) -> (res: Result<Payload, PipelineError>)
    ensures
        payload_result_view(res) == abi_payload(bytes@),
{
    if fields_in_range(PAYLOAD_FIELDS, bytes) {
        payload_from_fields(abi_decode_strings(PAYLOAD_FIELDS, bytes))
    } else {
        Err(
            PipelineError::new(
                ErrorKind::AbiShape,
                String::from_str("a string lies outside the data"),
            ),
        )
    }
}

/// Decodes a payload: hexadecimal text to bytes, bytes to three ABI strings.
/// A failure says at which of the two steps the text was refused.
pub fn decode_payload(data: &str) -> (res: Result<Payload, PipelineError>)
    ensures
        payload_result_view(res) == decoded_payload(data@),
        !is_hex(vstd::utf8::encode_utf8(data@)) ==> res is Err && res->Err_0.kind
            == ErrorKind::HexDecode,
{
    match hex_decode(data.as_bytes()) {
        Ok(bytes) => decode_fields(bytes.as_slice()),
        Err(fault) => {
            proof {
                lemma_hex_fault_unique(data.spec_bytes(), fault, hex_fault_of(data.spec_bytes()));
            }
            Err(PipelineError::new(ErrorKind::HexDecode, hex_cause_text(fault)))
        },
    }
}

/// The decoder undoes hexadecimal writing: the string of digits that spells
/// a byte string decodes to whatever the ABI step makes of these bytes.
pub proof fn law_decode_undoes_hex(bytes: Seq<u8>)
    ensures
        decoded_payload(hex_string(bytes)) == abi_payload(bytes),
{
    law_hex_round_trip(bytes);
    lemma_hex_string_bytes(bytes);
}

/// Three strings as the ABI step hands them back.
pub open spec fn read_back(version: Seq<char>, gateway: Seq<char>, cid: Seq<char>) -> Result<
    Seq<Seq<char>>,
    Seq<char>,
> {
    Ok(seq![version, gateway, cid])
}

/// The payload that is made of three strings.
pub open spec fn payload_with(version: Seq<char>, gateway: Seq<char>, cid: Seq<char>) -> Result<
    PayloadView,
    Fault,
> {
    Ok(PayloadView { version, gateway, cid })
}

/// Where the three strings lie inside the data and the ABI step reads them
/// back, the decoder returns them unchanged and in order.
pub proof fn law_decode_keeps_fields(
    bytes: Seq<u8>,
    version: Seq<char>,
    gateway: Seq<char>,
    cid: Seq<char>,
)
    ensures
        fields_fit(PAYLOAD_FIELDS as nat, bytes) && abi_strings(PAYLOAD_FIELDS as nat, bytes)
            == read_back(version, gateway, cid) ==> decoded_payload(hex_string(bytes))
            == payload_with(version, gateway, cid),
{
    law_decode_undoes_hex(bytes);
}

/// The 32-byte word that spells `n`, the most significant byte first, for a
/// number that four bytes can hold.
#[verifier::opaque]
pub open spec fn abi_word(n: int) -> Seq<u8> {
    Seq::new(
        32,
        |i: int|
            if i < 28 {
                0u8
            } else if i == 28 {
                (n / 0x100_0000 % 0x100) as u8
            } else if i == 29 {
                (n / 0x1_0000 % 0x100) as u8
            } else if i == 30 {
                (n / 0x100 % 0x100) as u8
            } else {
                (n % 0x100) as u8
            },
    )
}

/// The zeros that fill `len` bytes up to the next multiple of 32.
pub open spec fn abi_padding(len: nat) -> Seq<u8> {
    Seq::new(((32 - len % 32) % 32) as nat, |i: int| 0u8)
}

/// A string as it stands in an encoded tuple: the word of its length in
/// bytes, its UTF-8 bytes, and zeros up to the next multiple of 32.
#[verifier::opaque]
pub open spec fn abi_string(text: Seq<char>) -> Seq<u8> {
    abi_word(vstd::utf8::encode_utf8(text).len() as int) + vstd::utf8::encode_utf8(text)
        + abi_padding(vstd::utf8::encode_utf8(text).len())
}

/// The encoding of a tuple of three strings: three words that give the
/// offsets of the strings, then the strings.
#[verifier::opaque]
pub open spec fn abi_tuple(version: Seq<char>, gateway: Seq<char>, cid: Seq<char>) -> Seq<u8> {
    abi_word(96) + abi_word(96 + abi_string(version).len() as int) + abi_word(
        96 + abi_string(version).len() as int + abi_string(gateway).len() as int,
    ) + abi_string(version) + abi_string(gateway) + abi_string(cid)
}

proof fn lemma_word_tail(data: Seq<u8>, at: int, n: int)
    requires
        0 <= n <= 0xffff_ffff,
        0 <= at,
        at + 32 <= data.len(),
        data.subrange(at, at + 32) == abi_word(n),
    ensures
        word_tail(data, at) == n,
{
    reveal(abi_word);
    let word = data.subrange(at, at + 32);
    assert(word[28] == data[at + 28]);
    assert(word[29] == data[at + 29]);
    assert(word[30] == data[at + 30]);
    assert(word[31] == data[at + 31]);
}

proof fn lemma_word_len(n: int)
    ensures
        abi_word(n).len() == 32,
{
    reveal(abi_word);
}

proof fn lemma_string_shape(text: Seq<char>)
    ensures
        abi_string(text).len() >= 32 + vstd::utf8::encode_utf8(text).len(),
        abi_string(text).subrange(0, 32) == abi_word(vstd::utf8::encode_utf8(text).len() as int),
{
    reveal(abi_string);
    let bytes = vstd::utf8::encode_utf8(text);
    lemma_word_len(bytes.len() as int);
    assert(abi_string(text).subrange(0, 32) =~= abi_word(bytes.len() as int));
}

/// The part of a sequence that lies between what stands before it and what
/// stands behind it.
proof fn lemma_middle(before: Seq<u8>, part: Seq<u8>, behind: Seq<u8>, upto: int)
    requires
        0 <= upto <= part.len(),
    ensures
        (before + part + behind).subrange(before.len() as int, before.len() + upto)
            == part.subrange(0, upto),
{
    assert((before + part + behind).subrange(before.len() as int, before.len() + upto)
        =~= part.subrange(0, upto));
}

proof fn lemma_field_fits(data: Seq<u8>, index: int, offset: int, length: int)
    requires
        0 <= index,
        32 * index + 32 <= data.len(),
        0 <= offset <= 0xffff_ffff,
        0 <= length <= 0xffff_ffff,
        offset + 32 + length <= data.len(),
        data.subrange(32 * index, 32 * index + 32) == abi_word(offset),
        data.subrange(offset, offset + 32) == abi_word(length),
    ensures
        field_fits(data, index),
{
    lemma_word_tail(data, 32 * index, offset);
    lemma_word_tail(data, offset, length);
}

/// The range check never refuses an encoded tuple: each of its three strings
/// lies inside the data.
pub proof fn law_encoded_tuple_fits(version: Seq<char>, gateway: Seq<char>, cid: Seq<char>)
    requires
        abi_tuple(version, gateway, cid).len() <= 0xffff_ffff,
    ensures
        fields_fit(PAYLOAD_FIELDS as nat, abi_tuple(version, gateway, cid)),
{
    reveal(abi_tuple);
    let data = abi_tuple(version, gateway, cid);
    let sv = abi_string(version);
    let sg = abi_string(gateway);
    let sc = abi_string(cid);
    let ov: int = 96;
    let og: int = 96 + sv.len() as int;
    let oc: int = 96 + sv.len() as int + sg.len() as int;
    let w0 = abi_word(ov);
    let w1 = abi_word(og);
    let w2 = abi_word(oc);
    let empty = Seq::<u8>::empty();
    lemma_word_len(ov);
    lemma_word_len(og);
    lemma_word_len(oc);
    lemma_string_shape(version);
    lemma_string_shape(gateway);
    lemma_string_shape(cid);
    assert(data.len() == 96 + sv.len() + sg.len() + sc.len());
    assert(data.subrange(0, 32) == w0) by {
        assert(data =~= empty + w0 + (w1 + w2 + sv + sg + sc));
        lemma_middle(empty, w0, w1 + w2 + sv + sg + sc, 32);
        assert(w0.subrange(0, 32) =~= w0);
    }
    assert(data.subrange(32, 64) == w1) by {
        assert(data =~= w0 + w1 + (w2 + sv + sg + sc));
        lemma_middle(w0, w1, w2 + sv + sg + sc, 32);
        assert(w1.subrange(0, 32) =~= w1);
    }
    assert(data.subrange(64, 96) == w2) by {
        assert(data =~= (w0 + w1) + w2 + (sv + sg + sc));
        lemma_middle(w0 + w1, w2, sv + sg + sc, 32);
        assert(w2.subrange(0, 32) =~= w2);
    }
    assert(data.subrange(ov, ov + 32) == sv.subrange(0, 32)) by {
        assert(data =~= (w0 + w1 + w2) + sv + (sg + sc));
        lemma_middle(w0 + w1 + w2, sv, sg + sc, 32);
    }
    assert(data.subrange(og, og + 32) == sg.subrange(0, 32)) by {
        assert(data =~= (w0 + w1 + w2 + sv) + sg + sc);
        lemma_middle(w0 + w1 + w2 + sv, sg, sc, 32);
    }
    assert(data.subrange(oc, oc + 32) == sc.subrange(0, 32)) by {
        assert(data =~= (w0 + w1 + w2 + sv + sg) + sc + empty);
        lemma_middle(w0 + w1 + w2 + sv + sg, sc, empty, 32);
    }
    lemma_field_fits(data, 0, ov, vstd::utf8::encode_utf8(version).len() as int);
    lemma_field_fits(data, 1, og, vstd::utf8::encode_utf8(gateway).len() as int);
    lemma_field_fits(data, 2, oc, vstd::utf8::encode_utf8(cid).len() as int);
}

/// The round trip of a tuple, as far as this crate decides it: the string of
/// digits of an encoded tuple decodes to whatever the ABI step makes of the
/// encoding, and to the three strings where the ABI step reads them back.
pub proof fn law_round_trip(version: Seq<char>, gateway: Seq<char>, cid: Seq<char>)
    requires
        abi_tuple(version, gateway, cid).len() <= 0xffff_ffff,
    ensures
        decoded_payload(hex_string(abi_tuple(version, gateway, cid))) == payload_of(
            abi_strings(PAYLOAD_FIELDS as nat, abi_tuple(version, gateway, cid)),
        ),
        abi_strings(PAYLOAD_FIELDS as nat, abi_tuple(version, gateway, cid)) == read_back(
            version,
            gateway,
            cid,
        ) ==> decoded_payload(hex_string(abi_tuple(version, gateway, cid))) == payload_with(
            version,
            gateway,
            cid,
        ),
{
    law_encoded_tuple_fits(version, gateway, cid);
    law_decode_undoes_hex(abi_tuple(version, gateway, cid));
}

} // verus!
