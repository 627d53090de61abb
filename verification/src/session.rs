//! What the device session hands over: the driver's fixed-size character
//! buffers as text, and its result codes as errors.

use crate::ovr::OvrError;
use vstd::prelude::*;
use vstd::utf8::{decode_utf8, encode_utf8, encode_utf8_decode_utf8, valid_utf8};

verus! {

/// The eight bits of a driver character, read as an unsigned byte.
pub open spec fn byte_of(c: i8) -> u8 {
    c as u8
}

/// The characters of a buffer as bytes, one for one.
pub open spec fn raw_bytes(input: Seq<i8>) -> Seq<u8> {
    input.map_values(|c: i8| byte_of(c))
}

/// The bytes that are not zero, in their order.
pub open spec fn without_zeros(bytes: Seq<u8>) -> Seq<u8> {
    bytes.filter(|b: u8| b != 0)
}

/// The text of a driver buffer: its non-zero bytes decoded as UTF-8, and
/// `"Unknown"` where they are not valid UTF-8.
pub open spec fn text_of(input: Seq<i8>) -> Seq<char> {
    let bytes = without_zeros(raw_bytes(input));
    if valid_utf8(bytes) {
        decode_utf8(bytes)
    } else {
        "Unknown"@
    }
}

/// The non-zero bytes of a buffer that is one character longer.
proof fn lemma_text_bytes_push(prefix: Seq<i8>, c: i8)
    ensures
        without_zeros(raw_bytes(prefix.push(c))) == if byte_of(c) != 0 {
            without_zeros(raw_bytes(prefix)).push(byte_of(c))
        } else {
            without_zeros(raw_bytes(prefix))
        },
{
    reveal(Seq::filter);
    let longer = raw_bytes(prefix.push(c));
    assert(longer =~= raw_bytes(prefix).push(byte_of(c)));
    assert(longer.drop_last() =~= raw_bytes(prefix));
}

/// `String::from_utf8` of std: the bytes become a string if and only if they
/// are valid UTF-8, and the string then holds exactly these bytes.
#[verifier::external_body]
fn string_from_utf8(bytes: Vec<u8>) -> (text: Option<String>)
    ensures
        text is Some <==> valid_utf8(bytes@),
        text matches Some(t) ==> encode_utf8(t@) == bytes@,
{
    String::from_utf8(bytes).ok()
}

/// Reads a fixed-size character buffer of the driver as text.
///
/// Zero characters are dropped wherever they stand. What is left is decoded
/// as UTF-8; a buffer that does not hold valid UTF-8 reads as `"Unknown"`.
pub fn char_array_to_string(input: &[i8]) -> (text: String)
    ensures
        text@ == text_of(input@),
{
    let mut bytes: Vec<u8> = Vec::new();
    let mut i: usize = 0;
    assert(input@.take(0) =~= Seq::<i8>::empty());
    assert(without_zeros(raw_bytes(Seq::<i8>::empty())) =~= Seq::<u8>::empty()) by {
        reveal(Seq::filter);
    }
    while i < input.len()
        invariant
            i <= input.len(),
            bytes@ == without_zeros(raw_bytes(input@.take(i as int))),
        decreases input.len() - i,
    {
        let byte: u8 = #[verifier::truncate] (input[i] as u8);
        proof {
            lemma_text_bytes_push(input@.take(i as int), input@[i as int]);
            assert(input@.take(i as int + 1) =~= input@.take(i as int).push(input@[i as int]));
        }
        if byte != 0 {
            bytes.push(byte);
        }
        i += 1;
    }
    assert(input@.take(i as int) =~= input@);
    match string_from_utf8(bytes) {
        Some(text) => {
            proof {
                encode_utf8_decode_utf8(text@);
            }
            text
        },
        None => "Unknown".to_string(),
    }
}

/// Whether a driver result code reports a failure: the negative codes do.
pub open spec fn is_failure(result: i32) -> bool {
    result < 0
}

/// Tells a failed driver call from one that succeeded.
///
/// The driver's last-error record is to be read after a call for which this
/// returns `true`, and after no other.
pub fn failed(result: i32) -> (failure: bool)
    ensures
        failure == is_failure(result),
{
    result < 0
}

impl OvrError {
    /// The error that the driver's last-error record describes: its code as
    /// it is, and its character buffer as text.
    pub fn from_driver(code: i32, error_string: &[i8]) -> (error: OvrError)
        ensures
            error.code == code,
            error.reason@ == text_of(error_string@),
    {
        OvrError { code, reason: char_array_to_string(error_string) }
    }
}

} // verus!
