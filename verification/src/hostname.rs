//! Decoding of the local hostname from what the operating system's hostname
//! call leaves behind: a status, an error code and a fixed-size buffer that
//! holds the name and a terminator.
//!
//! The call itself is made by the caller, who hands its results to
//! [`hostname_from_bytes`] or [`hostname_from_units`].

use vstd::prelude::*;
use vstd::slice::slice_subrange;
use vstd::string::StringSliceAdditionalSpecFns;
use vstd::utf8::{
    decode_utf8, encode_scalar, encode_utf8, has_width_1_encoding, has_width_2_encoding,
    has_width_3_encoding, is_scalar, last_continuation_byte, leading_byte_width_1,
    leading_byte_width_2, leading_byte_width_3, leading_byte_width_4,
    second_last_continuation_byte, third_last_continuation_byte, valid_utf8,
};

verus! {

/// The number of units in the buffer that is handed to the operating system.
pub const HOSTNAME_CAPACITY: usize = 256;

/// The byte that ends the name inside the buffer.
pub const TERMINATOR: u8 = 0;

/// The words that describe [`HostnameError::Encoding`].
pub const NON_UTF8_HOSTNAME: &'static str = "non-UTF8 hostname";

/// Why no hostname could be produced.
#[derive(Copy, Clone, Debug, PartialEq, Eq, Structural)]
pub enum HostnameError {
    /// A native call reported failure; the field holds the error code that
    /// the operating system gave for it.
    Os(i32),
    /// The operating system reported a name that is not valid UTF-8.
    Encoding,
}

/// The byte that a signed native character unit stands for: the same eight
/// bits read as an unsigned number.
pub open spec fn unit_byte(unit: i8) -> u8 {
    if unit >= 0 {
        unit as u8
    } else {
        (unit + 256) as u8
    }
}

/// The bytes that a buffer of signed native character units stands for.
pub open spec fn unit_bytes(units: Seq<i8>) -> Seq<u8> {
    Seq::new(units.len(), |i: int| unit_byte(units[i]))
}

/// The name in `bytes` ends at index `n`: no terminator lies before `n`, and
/// `n` is either the index of a terminator or, in a buffer without one, the
/// length of the buffer.
pub open spec fn name_ends_at(bytes: Seq<u8>, n: int) -> bool {
    &&& 0 <= n <= bytes.len()
    &&& forall|i: int| 0 <= i < n ==> bytes[i] != TERMINATOR
    &&& n < bytes.len() ==> bytes[n] == TERMINATOR
}

/// The length of the name in `bytes`.
pub open spec fn name_len(bytes: Seq<u8>) -> int {
    choose|n: int| name_ends_at(bytes, n)
}

/// The name in `bytes`: everything before the first terminator, or the whole
/// buffer if it holds no terminator.
pub open spec fn name_bytes(bytes: Seq<u8>) -> Seq<u8> {
    bytes.take(name_len(bytes))
}

/// A name ends at one index only.
pub proof fn lemma_name_end_unique(bytes: Seq<u8>, n: int, m: int)
    requires
        name_ends_at(bytes, n),
        name_ends_at(bytes, m),
    ensures
        n == m,
{
    if n < m {
        assert(bytes[n] == TERMINATOR);
    } else if m < n {
        assert(bytes[m] == TERMINATOR);
    }
}

/// Searching from `start`, with no terminator before it, finds the end of the
/// name.
proof fn lemma_name_end_exists_from(bytes: Seq<u8>, start: int) -> (n: int)
    requires
        0 <= start <= bytes.len(),
        forall|i: int| 0 <= i < start ==> bytes[i] != TERMINATOR,
    ensures
        name_ends_at(bytes, n),
    decreases bytes.len() - start,
{
    if start == bytes.len() || bytes[start] == TERMINATOR {
        start
    } else {
        lemma_name_end_exists_from(bytes, start + 1)
    }
}

/// Every buffer holds a name: it ends at `name_len`, which lies within the
/// buffer, and the name contains no terminator.
pub proof fn lemma_name_len(bytes: Seq<u8>)
    ensures
        name_ends_at(bytes, name_len(bytes)),
        name_bytes(bytes).len() == name_len(bytes),
        name_bytes(bytes).len() <= bytes.len(),
        !name_bytes(bytes).contains(TERMINATOR),
{
    let n = lemma_name_end_exists_from(bytes, 0);
    assert(name_ends_at(bytes, name_len(bytes)));
}

/// Turns a buffer of signed native character units into the bytes that it
/// stands for.
pub fn canonical_bytes(units: &[i8]) -> (bytes: Vec<u8>)
    ensures
        bytes@ == unit_bytes(units@),
{
    let mut bytes: Vec<u8> = Vec::new();
    let mut i: usize = 0;
    while i < units.len()
        invariant
            i <= units.len(),
            bytes@ == unit_bytes(units@.take(i as int)),
        decreases units.len() - i,
    {
        let unit: i8 = units[i];
        let byte: u8 = if unit >= 0 {
            unit as u8
        } else {
            (unit as i16 + 256) as u8
        };
        bytes.push(byte);
        i = i + 1;
        assert(bytes@ =~= unit_bytes(units@.take(i as int)));
    }
    assert(units@.take(i as int) =~= units@);
    bytes
}

/// Finds where the name in `bytes` ends, reading no further than the buffer.
pub fn name_length(bytes: &[u8]) -> (n: usize)
    ensures
        n == name_len(bytes@),
        name_ends_at(bytes@, n as int),
{
    let mut n: usize = 0;
    while n < bytes.len() && bytes[n] != TERMINATOR
        invariant
            n <= bytes.len(),
            forall|i: int| 0 <= i < n ==> bytes@[i] != TERMINATOR,
        decreases bytes.len() - n,
    {
        n = n + 1;
    }
    proof {
        lemma_name_len(bytes@);
        lemma_name_end_unique(bytes@, n as int, name_len(bytes@));
    }
    n
}

/// What decoding the name in `bytes` gives: its text if the name is valid
/// UTF-8, and an encoding error if it is not.
pub open spec fn decoded_name(bytes: Seq<u8>) -> Result<Seq<char>, HostnameError> {
    if valid_utf8(name_bytes(bytes)) {
        Ok(decode_utf8(name_bytes(bytes)))
    } else {
        Err(HostnameError::Encoding)
    }
}

/// What a native call that returned `status` amounts to: success on zero,
/// and otherwise a failure that carries `os_code`.
pub open spec fn status_outcome(status: i32, os_code: i32) -> Result<(), HostnameError> {
    if status == 0 {
        Ok(())
    } else {
        Err(HostnameError::Os(os_code))
    }
}

/// The hostname that the results of the native hostname call stand for.
/// A failed call gives the operating system's error whatever the buffer
/// holds; after a successful call the name in the buffer is decoded.
pub open spec fn resolved_name(status: i32, os_code: i32, bytes: Seq<u8>) -> Result<
    Seq<char>,
    HostnameError,
> {
    match status_outcome(status, os_code) {
        Ok(_) => decoded_name(bytes),
        Err(e) => Err(e),
    }
}

/// The outcome of a resolution with the text taken as a sequence of
/// characters.
pub open spec fn outcome_view(outcome: Result<String, HostnameError>) -> Result<
    Seq<char>,
    HostnameError,
> {
    match outcome {
        Ok(text) => Ok(text@),
        Err(e) => Err(e),
    }
}

/// The bytes of the UTF-8 encoding of one scalar value: only the scalar zero
/// is encoded with a zero byte.
proof fn lemma_scalar_bytes(scalar: u32)
    by (bit_vector)
    ensures
        scalar <= 0x7F ==> (((scalar & 0x7F) as u8 == 0u8) <==> scalar == 0u32),
        0xC0u8 | ((scalar >> 6) & 0x1F) as u8 != 0u8,
        0xE0u8 | ((scalar >> 12) & 0x0F) as u8 != 0u8,
        0xF0u8 | ((scalar >> 18) & 0x7) as u8 != 0u8,
        0x80u8 | (scalar & 0x3F) as u8 != 0u8,
        0x80u8 | ((scalar >> 6) & 0x3F) as u8 != 0u8,
        0x80u8 | ((scalar >> 12) & 0x3F) as u8 != 0u8,
{
}

/// The UTF-8 encoding of a scalar value holds a terminator exactly if the
/// scalar is zero.
proof fn lemma_terminator_in_scalar(scalar: u32)
    requires
        is_scalar(scalar),
    ensures
        encode_scalar(scalar).contains(TERMINATOR) <==> scalar == 0,
{
    let encoded = encode_scalar(scalar);
    lemma_scalar_bytes(scalar);
    if has_width_1_encoding(scalar) {
        assert(encoded.len() == 1);
        assert(encoded[0] == leading_byte_width_1(scalar));
    } else if has_width_2_encoding(scalar) {
        assert(encoded.len() == 2);
        assert(encoded[0] == leading_byte_width_2(scalar));
        assert(encoded[1] == last_continuation_byte(scalar));
    } else if has_width_3_encoding(scalar) {
        assert(encoded.len() == 3);
        assert(encoded[0] == leading_byte_width_3(scalar));
        assert(encoded[1] == second_last_continuation_byte(scalar));
        assert(encoded[2] == last_continuation_byte(scalar));
    } else {
        assert(encoded.len() == 4);
        assert(encoded[0] == leading_byte_width_4(scalar));
        assert(encoded[1] == third_last_continuation_byte(scalar));
        assert(encoded[2] == second_last_continuation_byte(scalar));
        assert(encoded[3] == last_continuation_byte(scalar));
    }
    if encoded.contains(TERMINATOR) {
        let k = choose|k: int| 0 <= k < encoded.len() && encoded[k] == TERMINATOR;
        assert(encoded[k] == TERMINATOR);
    }
    if scalar == 0 {
        assert(encoded[0] == TERMINATOR);
    }
}

/// A text holds the character zero exactly if its UTF-8 encoding holds a
/// terminator.
pub proof fn lemma_terminator_in_encoding(text: Seq<char>)
    ensures
        encode_utf8(text).contains(TERMINATOR) <==> text.contains('\0'),
    decreases text.len(),
{
    if text.len() == 0 {
    } else {
        let scalar = text[0] as u32;
        let head = encode_scalar(scalar);
        let rest = text.drop_first();
        let tail = encode_utf8(rest);
        lemma_terminator_in_encoding(rest);
        vstd::utf8::char_is_scalar(text[0]);
        lemma_terminator_in_scalar(scalar);
        assert(head.contains(TERMINATOR) <==> text[0] == '\0') by {
            vstd::utf8::char_u32_cast(text[0], scalar);
            vstd::utf8::char_u32_cast('\0', 0u32);
        }
        if encode_utf8(text).contains(TERMINATOR) {
            let i = choose|i: int|
                0 <= i < (head + tail).len() && (head + tail)[i] == TERMINATOR;
            if i < head.len() {
                assert(head[i] == TERMINATOR);
                assert(text[0] == '\0');
            } else {
                assert(tail[i - head.len()] == TERMINATOR);
                let j = choose|j: int| 0 <= j < rest.len() && rest[j] == '\0';
                assert(text[j + 1] == '\0');
            }
        }
        if text.contains('\0') {
            let j = choose|j: int| 0 <= j < text.len() && text[j] == '\0';
            if j == 0 {
                let k = choose|k: int| 0 <= k < head.len() && head[k] == TERMINATOR;
                assert((head + tail)[k] == TERMINATOR);
            } else {
                assert(rest[j - 1] == '\0');
                let k = choose|k: int| 0 <= k < tail.len() && tail[k] == TERMINATOR;
                assert((head + tail)[head.len() + k] == TERMINATOR);
            }
        }
    }
}

/// A buffer that holds the UTF-8 encoding of a text without the character
/// zero, followed by a terminator and anything after it, decodes to that
/// text; so does a buffer that the encoding fills to its end.
pub proof fn lemma_decodes_written_name(text: Seq<char>, rest: Seq<u8>)
    requires
        !text.contains('\0'),
    ensures
        decoded_name(encode_utf8(text) + seq![TERMINATOR] + rest) == Ok::<
            Seq<char>,
            HostnameError,
        >(text),
        decoded_name(encode_utf8(text)) == Ok::<Seq<char>, HostnameError>(text),
{
    let name = encode_utf8(text);
    lemma_terminator_in_encoding(text);
    assert forall|i: int| 0 <= i < name.len() implies name[i] != TERMINATOR by {
        assert(name.contains(name[i]));
    }
    vstd::utf8::encode_utf8_valid_utf8(text);
    vstd::utf8::encode_utf8_decode_utf8(text);

    let terminated = name + seq![TERMINATOR] + rest;
    assert(name_ends_at(terminated, name.len() as int));
    lemma_name_len(terminated);
    lemma_name_end_unique(terminated, name.len() as int, name_len(terminated));
    assert(name_bytes(terminated) =~= name);

    assert(name_ends_at(name, name.len() as int));
    lemma_name_len(name);
    lemma_name_end_unique(name, name.len() as int, name_len(name));
    assert(name_bytes(name) =~= name);
}

/// Calls `std::str::from_utf8` and drops the description of the error.
///
/// Trusted: the call succeeds exactly on the byte sequences that are valid
/// UTF-8, and the string slice that it then returns consists of the very
/// bytes that were given.
#[verifier::external_body]
fn utf8_text(bytes: &[u8]) -> (text: Option<&str>)
    ensures
        text is Some <==> valid_utf8(bytes@),
        text matches Some(s) ==> s.spec_bytes() == bytes@,
{
    match std::str::from_utf8(bytes) {
        Ok(s) => Some(s),
        Err(_) => None,
    }
}

/// Decodes the name in `bytes` as UTF-8 text.
///
/// The name is what precedes the first terminator; a buffer without a
/// terminator is taken to hold a name of its full length. Nothing outside
/// the buffer is read.
pub fn decode_name(bytes: &[u8]) -> (outcome: Result<String, HostnameError>)
    ensures
        outcome_view(outcome) == decoded_name(bytes@),
        outcome matches Ok(text) ==> {
            &&& encode_utf8(text@) == name_bytes(bytes@)
            &&& !encode_utf8(text@).contains(TERMINATOR)
            &&& !text@.contains('\0')
            &&& encode_utf8(text@).len() <= bytes@.len()
        },
{
    let n = name_length(bytes);
    let name = slice_subrange(bytes, 0, n);
    proof {
        lemma_name_len(bytes@);
        assert(name@ =~= name_bytes(bytes@));
    }
    match utf8_text(name) {
        Some(s) => {
            proof {
                vstd::utf8::encode_utf8_decode_utf8(s@);
                lemma_terminator_in_encoding(s@);
            }
            Ok(s.to_owned())
        },
        None => Err(HostnameError::Encoding),
    }
}

/// Judges the status that a native call returned: zero is success, anything
/// else a failure that carries `os_code`, the error code that the operating
/// system reported for the call.
pub fn check_status(status: i32, os_code: i32) -> (outcome: Result<(), HostnameError>)
    ensures
        outcome == status_outcome(status, os_code),
{
    if status == 0 {
        Ok(())
    } else {
        Err(HostnameError::Os(os_code))
    }
}

/// Produces the hostname from the results of the native hostname call, for a
/// platform whose native character unit is an unsigned byte.
///
/// `status` is what the call returned, `os_code` the operating system's
/// last error code, read after the call, and `buffer` the buffer that the
/// call was given.
pub fn hostname_from_bytes(status: i32, os_code: i32, buffer: &[u8]) -> (outcome: Result<
    String,
    HostnameError,
>)
    ensures
        outcome_view(outcome) == resolved_name(status, os_code, buffer@),
        outcome matches Ok(text) ==> {
            &&& encode_utf8(text@) == name_bytes(buffer@)
            &&& !encode_utf8(text@).contains(TERMINATOR)
            &&& !text@.contains('\0')
            &&& encode_utf8(text@).len() <= buffer@.len()
        },
{
    match check_status(status, os_code) {
        Ok(_) => decode_name(buffer),
        Err(e) => Err(e),
    }
}

/// Produces the hostname from the results of the native hostname call, for a
/// platform whose native character unit is a signed byte. The units are
/// first turned into the bytes that they stand for.
pub fn hostname_from_units(status: i32, os_code: i32, buffer: &[i8]) -> (outcome: Result<
    String,
    HostnameError,
>)
    ensures
        outcome_view(outcome) == resolved_name(status, os_code, unit_bytes(buffer@)),
        outcome matches Ok(text) ==> {
            &&& encode_utf8(text@) == name_bytes(unit_bytes(buffer@))
            &&& !encode_utf8(text@).contains(TERMINATOR)
            &&& !text@.contains('\0')
            &&& encode_utf8(text@).len() <= buffer@.len()
        },
{
    match check_status(status, os_code) {
        Ok(_) => {
            let bytes = canonical_bytes(buffer);
            decode_name(bytes.as_slice())
        },
        Err(e) => Err(e),
    }
}

} // verus!
