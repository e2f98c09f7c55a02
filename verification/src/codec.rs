//! Bridge to the external canonical codec.
//!
//! Entities are flattened by verified code into plain parts (strings, byte
//! strings, integers, options, lists of pairs) and those parts are encoded by
//! the external codec, reached through the trusted wrappers below. The byte
//! layout belongs to the codec; each encoding is named by an uninterpreted
//! spec function, and decoding is specified as the inverse of encoding, which
//! is what the codec guarantees.
//!
//! Composite entities nest: an entrypoint's body is the encoding of its
//! variant's content, a signed envelope carries its payload's encoding.
use parity_scale_codec::Decode;
use parity_scale_codec::Encode;
use vstd::prelude::*;

verus! {

/// The view of a flattened instruction list: wire tags and opaque bodies.
pub open spec fn instr_parts_view(s: Seq<(u8, String)>) -> Seq<(u8, Seq<char>)> {
    s.map_values(|p: (u8, String)| (p.0, p.1@))
}

/// The view of a flattened metadata entry list.
pub open spec fn meta_parts_view(s: Seq<(String, String)>) -> Seq<(Seq<char>, Seq<char>)> {
    s.map_values(|p: (String, String)| (p.0@, p.1@))
}

/// The view of a list of already-encoded byte strings.
pub open spec fn bytes_list_view(s: Seq<Vec<u8>>) -> Seq<Seq<u8>> {
    s.map_values(|v: Vec<u8>| v@)
}

/// The longest collection or byte string the codec can encode: its compact
/// length prefix holds at most this many elements, and the encoder fails on
/// more.
pub const CODEC_MAX_LEN: usize = 0xffff_ffff;

/// The longest text the codec can encode, counted in characters: a character
/// never takes more than four bytes, so this many keep the byte length
/// within the codec's limit.
pub const CODEC_MAX_STR: usize = 0x3fff_ffff;

/// The text is short enough for the codec to encode.
pub open spec fn str_len_ok(s: Seq<char>) -> bool {
    s.len() <= CODEC_MAX_STR
}

/// The byte string is short enough for the codec to encode.
pub open spec fn bytes_len_ok(b: Seq<u8>) -> bool {
    b.len() <= CODEC_MAX_LEN
}

/// The instruction list and each of its bodies are short enough for the
/// codec to encode.
pub open spec fn instr_parts_len_ok(s: Seq<(u8, Seq<char>)>) -> bool {
    s.len() <= CODEC_MAX_LEN && forall|j: int| 0 <= j < s.len() ==> str_len_ok((#[trigger] s[j]).1)
}

/// The metadata entry list and each of its texts are short enough for the
/// codec to encode.
pub open spec fn meta_parts_len_ok(s: Seq<(Seq<char>, Seq<char>)>) -> bool {
    s.len() <= CODEC_MAX_LEN && forall|j: int|
        0 <= j < s.len() ==> str_len_ok((#[trigger] s[j]).0) && str_len_ok(s[j].1)
}

/// The list and each of its byte strings are short enough for the codec to
/// encode.
pub open spec fn bytes_list_len_ok(s: Seq<Seq<u8>>) -> bool {
    s.len() <= CODEC_MAX_LEN && forall|j: int| 0 <= j < s.len() ==> bytes_len_ok(#[trigger] s[j])
}

/// The codec's encoding of an executable: variant tag, instruction list,
/// program bytes.
pub uninterp spec fn enc_executable(tag: u8, instructions: Seq<(u8, Seq<char>)>, wasm: Seq<u8>) -> Seq<u8>;

/// The codec's encoding of a transaction payload. The executable arrives
/// already encoded.
pub uninterp spec fn enc_payload(
    chain: Seq<char>,
    domain: Seq<char>,
    signatory: Seq<u8>,
    creation_ms: u64,
    executable: Seq<u8>,
    ttl_ms: Option<u64>,
    nonce: Option<u32>,
    metadata: Seq<(Seq<char>, Seq<char>)>,
) -> Seq<u8>;

/// The codec's encoding of a signed envelope: signature bytes and the
/// payload's encoding.
pub uninterp spec fn enc_signed(signature: Seq<u8>, payload: Seq<u8>) -> Seq<u8>;

/// The codec's encoding of a time-triggered entrypoint.
pub uninterp spec fn enc_time(
    id: Seq<char>,
    instructions: Seq<(u8, Seq<char>)>,
    domain: Seq<char>,
    signatory: Seq<u8>,
) -> Seq<u8>;

/// The codec's encoding of an entrypoint: variant tag and the encoded
/// variant content.
pub uninterp spec fn enc_entrypoint(tag: u8, body: Seq<u8>) -> Seq<u8>;

/// The codec's encoding of a data-trigger step.
pub uninterp spec fn enc_step(id: Seq<char>, instructions: Seq<(u8, Seq<char>)>) -> Seq<u8>;

/// The codec's encoding of a rejection reason, flattened: variant tag, the
/// textual reason, the failed instruction's tag and body, and the account
/// coordinates of a missing account. Fields a variant does not use are empty.
pub uninterp spec fn enc_reason(
    tag: u8,
    text: Seq<char>,
    instr_tag: u8,
    instr_body: Seq<char>,
    domain: Seq<char>,
    signatory: Seq<u8>,
) -> Seq<u8>;

/// The codec's encoding of an execution result: outcome tag, encoded
/// data-trigger steps, encoded rejection reason.
pub uninterp spec fn enc_result(tag: u8, steps: Seq<Seq<u8>>, reason: Seq<u8>) -> Seq<u8>;

/// Relies on parity-scale-codec's `Encode` for tuples, vectors, strings and
/// integers: deterministic in the values encoded. The length bounds keep out
/// the inputs on which its compact length encoding fails.
#[verifier::external_body]
pub(crate) fn scale_encode_executable(tag: u8, instructions: &Vec<(u8, String)>, wasm: &Vec<
    u8,
>) -> (r: Vec<u8>)
    requires
        instr_parts_len_ok(instr_parts_view(instructions@)),
        bytes_len_ok(wasm@),
    ensures
        r@ == enc_executable(tag, instr_parts_view(instructions@), wasm@),
{
    (tag, instructions, wasm).encode()
}

/// Relies on parity-scale-codec's `Decode`: decoding is the inverse of
/// encoding.
#[verifier::external_body]
pub(crate) fn scale_decode_executable(bytes: &[u8]) -> (r: Option<(u8, Vec<(u8, String)>, Vec<u8>)>)
    ensures
        forall|tag: u8, instructions: Seq<(u8, Seq<char>)>, wasm: Seq<u8>|
            bytes@ == enc_executable(tag, instructions, wasm) ==> match r {
                Some(p) => p.0 == tag && instr_parts_view(p.1@) == instructions && p.2@ == wasm,
                None => false,
            },
{
    let mut input: &[u8] = bytes;
    match <(u8, Vec<(u8, String)>, Vec<u8>)>::decode(&mut input) {
        Ok(v) => Some(v),
        Err(_) => None,
    }
}

/// Relies on parity-scale-codec's `Encode` for tuples, vectors, strings,
/// options and integers: deterministic in the values encoded.
#[verifier::external_body]
pub(crate) fn scale_encode_payload(
    chain: &String,
    domain: &String,
    signatory: &Vec<u8>,
    creation_ms: u64,
    executable: &Vec<u8>,
    ttl_ms: &Option<u64>,
    nonce: &Option<u32>,
    metadata: &Vec<(String, String)>,
) -> (r: Vec<u8>)
    requires
        str_len_ok(chain@),
        str_len_ok(domain@),
        bytes_len_ok(signatory@),
        bytes_len_ok(executable@),
        meta_parts_len_ok(meta_parts_view(metadata@)),
    ensures
        r@ == enc_payload(
            chain@,
            domain@,
            signatory@,
            creation_ms,
            executable@,
            *ttl_ms,
            *nonce,
            meta_parts_view(metadata@),
        ),
{
    (chain, domain, signatory, creation_ms, executable, ttl_ms, nonce, metadata).encode()
}

/// Relies on parity-scale-codec's `Decode`: decoding is the inverse of
/// encoding.
#[verifier::external_body]
pub(crate) fn scale_decode_payload(bytes: &[u8]) -> (r: Option<
    (String, String, Vec<u8>, u64, Vec<u8>, Option<u64>, Option<u32>, Vec<(String, String)>),
>)
    ensures
        forall|
            chain: Seq<char>,
            domain: Seq<char>,
            signatory: Seq<u8>,
            creation_ms: u64,
            executable: Seq<u8>,
            ttl_ms: Option<u64>,
            nonce: Option<u32>,
            metadata: Seq<(Seq<char>, Seq<char>)>,
        |
            bytes@ == enc_payload(
                chain,
                domain,
                signatory,
                creation_ms,
                executable,
                ttl_ms,
                nonce,
                metadata,
            ) ==> match r {
                Some(p) => p.0@ == chain && p.1@ == domain && p.2@ == signatory && p.3
                    == creation_ms && p.4@ == executable && p.5 == ttl_ms && p.6 == nonce
                    && meta_parts_view(p.7@) == metadata,
                None => false,
            },
{
    let mut input: &[u8] = bytes;
    match <(String, String, Vec<u8>, u64, Vec<u8>, Option<u64>, Option<u32>, Vec<(String, String)>)>::decode(
        &mut input,
    ) {
        Ok(v) => Some(v),
        Err(_) => None,
    }
}

/// Relies on parity-scale-codec's `Encode` for pairs of byte vectors:
/// deterministic in the values encoded.
#[verifier::external_body]
pub(crate) fn scale_encode_signed(signature: &Vec<u8>, payload: &Vec<u8>) -> (r: Vec<u8>)
    requires
        bytes_len_ok(signature@),
        bytes_len_ok(payload@),
    ensures
        r@ == enc_signed(signature@, payload@),
{
    (signature, payload).encode()
}

/// Relies on parity-scale-codec's `Decode`: decoding is the inverse of
/// encoding.
#[verifier::external_body]
pub(crate) fn scale_decode_signed(bytes: &[u8]) -> (r: Option<(Vec<u8>, Vec<u8>)>)
    ensures
        forall|signature: Seq<u8>, payload: Seq<u8>|
            bytes@ == enc_signed(signature, payload) ==> match r {
                Some(p) => p.0@ == signature && p.1@ == payload,
                None => false,
            },
{
    let mut input: &[u8] = bytes;
    match <(Vec<u8>, Vec<u8>)>::decode(&mut input) {
        Ok(v) => Some(v),
        Err(_) => None,
    }
}

/// Relies on parity-scale-codec's `Encode` for tuples, vectors and strings:
/// deterministic in the values encoded.
#[verifier::external_body]
pub(crate) fn scale_encode_time(
    id: &String,
    instructions: &Vec<(u8, String)>,
    domain: &String,
    signatory: &Vec<u8>,
) -> (r: Vec<u8>)
    requires
        str_len_ok(id@),
        instr_parts_len_ok(instr_parts_view(instructions@)),
        str_len_ok(domain@),
        bytes_len_ok(signatory@),
    ensures
        r@ == enc_time(id@, instr_parts_view(instructions@), domain@, signatory@),
{
    (id, instructions, domain, signatory).encode()
}

/// Relies on parity-scale-codec's `Decode`: decoding is the inverse of
/// encoding.
#[verifier::external_body]
pub(crate) fn scale_decode_time(bytes: &[u8]) -> (r: Option<
    (String, Vec<(u8, String)>, String, Vec<u8>),
>)
    ensures
        forall|id: Seq<char>, instructions: Seq<(u8, Seq<char>)>, domain: Seq<char>, signatory: Seq<u8>|
            bytes@ == enc_time(id, instructions, domain, signatory) ==> match r {
                Some(p) => p.0@ == id && instr_parts_view(p.1@) == instructions && p.2@ == domain
                    && p.3@ == signatory,
                None => false,
            },
{
    let mut input: &[u8] = bytes;
    match <(String, Vec<(u8, String)>, String, Vec<u8>)>::decode(&mut input) {
        Ok(v) => Some(v),
        Err(_) => None,
    }
}

/// Relies on parity-scale-codec's `Encode` for a tag and a byte vector:
/// deterministic in the values encoded.
#[verifier::external_body]
pub(crate) fn scale_encode_entrypoint(tag: u8, body: &Vec<u8>) -> (r: Vec<u8>)
    requires
        bytes_len_ok(body@),
    ensures
        r@ == enc_entrypoint(tag, body@),
{
    (tag, body).encode()
}

/// Relies on parity-scale-codec's `Decode`: decoding is the inverse of
/// encoding.
#[verifier::external_body]
pub(crate) fn scale_decode_entrypoint(bytes: &[u8]) -> (r: Option<(u8, Vec<u8>)>)
    ensures
        forall|tag: u8, body: Seq<u8>|
            bytes@ == enc_entrypoint(tag, body) ==> match r {
                Some(p) => p.0 == tag && p.1@ == body,
                None => false,
            },
{
    let mut input: &[u8] = bytes;
    match <(u8, Vec<u8>)>::decode(&mut input) {
        Ok(v) => Some(v),
        Err(_) => None,
    }
}

/// Relies on parity-scale-codec's `Encode` for tuples, vectors and strings:
/// deterministic in the values encoded.
#[verifier::external_body]
pub(crate) fn scale_encode_step(id: &String, instructions: &Vec<(u8, String)>) -> (r: Vec<u8>)
    requires
        str_len_ok(id@),
        instr_parts_len_ok(instr_parts_view(instructions@)),
    ensures
        r@ == enc_step(id@, instr_parts_view(instructions@)),
{
    (id, instructions).encode()
}

/// Relies on parity-scale-codec's `Decode`: decoding is the inverse of
/// encoding.
#[verifier::external_body]
pub(crate) fn scale_decode_step(bytes: &[u8]) -> (r: Option<(String, Vec<(u8, String)>)>)
    ensures
        forall|id: Seq<char>, instructions: Seq<(u8, Seq<char>)>|
            bytes@ == enc_step(id, instructions) ==> match r {
                Some(p) => p.0@ == id && instr_parts_view(p.1@) == instructions,
                None => false,
            },
{
    let mut input: &[u8] = bytes;
    match <(String, Vec<(u8, String)>)>::decode(&mut input) {
        Ok(v) => Some(v),
        Err(_) => None,
    }
}

/// Relies on parity-scale-codec's `Encode` for tuples, strings and byte
/// vectors: deterministic in the values encoded.
#[verifier::external_body]
pub(crate) fn scale_encode_reason(
    tag: u8,
    text: &String,
    instr_tag: u8,
    instr_body: &String,
    domain: &String,
    signatory: &Vec<u8>,
) -> (r: Vec<u8>)
    requires
        str_len_ok(text@),
        str_len_ok(instr_body@),
        str_len_ok(domain@),
        bytes_len_ok(signatory@),
    ensures
        r@ == enc_reason(tag, text@, instr_tag, instr_body@, domain@, signatory@),
{
    (tag, text, instr_tag, instr_body, domain, signatory).encode()
}

/// Relies on parity-scale-codec's `Decode`: decoding is the inverse of
/// encoding.
#[verifier::external_body]
pub(crate) fn scale_decode_reason(bytes: &[u8]) -> (r: Option<
    (u8, String, u8, String, String, Vec<u8>),
>)
    ensures
        forall|
            tag: u8,
            text: Seq<char>,
            instr_tag: u8,
            instr_body: Seq<char>,
            domain: Seq<char>,
            signatory: Seq<u8>,
        |
            bytes@ == enc_reason(tag, text, instr_tag, instr_body, domain, signatory) ==> match r {
                Some(p) => p.0 == tag && p.1@ == text && p.2 == instr_tag && p.3@ == instr_body
                    && p.4@ == domain && p.5@ == signatory,
                None => false,
            },
{
    let mut input: &[u8] = bytes;
    match <(u8, String, u8, String, String, Vec<u8>)>::decode(&mut input) {
        Ok(v) => Some(v),
        Err(_) => None,
    }
}

/// Relies on parity-scale-codec's `Encode` for a tag and byte vectors:
/// deterministic in the values encoded.
#[verifier::external_body]
pub(crate) fn scale_encode_result(tag: u8, steps: &Vec<Vec<u8>>, reason: &Vec<u8>) -> (r: Vec<u8>)
    requires
        bytes_list_len_ok(bytes_list_view(steps@)),
        bytes_len_ok(reason@),
    ensures
        r@ == enc_result(tag, bytes_list_view(steps@), reason@),
{
    (tag, steps, reason).encode()
}

/// Relies on parity-scale-codec's `Decode`: decoding is the inverse of
/// encoding.
#[verifier::external_body]
pub(crate) fn scale_decode_result(bytes: &[u8]) -> (r: Option<(u8, Vec<Vec<u8>>, Vec<u8>)>)
    ensures
        forall|tag: u8, steps: Seq<Seq<u8>>, reason: Seq<u8>|
            bytes@ == enc_result(tag, steps, reason) ==> match r {
                Some(p) => p.0 == tag && bytes_list_view(p.1@) == steps && p.2@ == reason,
                None => false,
            },
{
    let mut input: &[u8] = bytes;
    match <(u8, Vec<Vec<u8>>, Vec<u8>)>::decode(&mut input) {
        Ok(v) => Some(v),
        Err(_) => None,
    }
}

} // verus!
