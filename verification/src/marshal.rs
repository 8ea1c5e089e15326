//! Text marshaling across the boundary to the embedded engine.
//!
//! On the far side of the boundary a text is a run of UTF-8 bytes closed by a
//! zero byte. The functions here turn such a run into an owned string and
//! back, and report what cannot be converted instead of failing.

use vstd::prelude::*;
use vstd::slice::*;
use vstd::string::*;
use vstd::utf8::*;

verus! {

/// Why a text could not cross the boundary.
#[derive(Debug, PartialEq, Eq, Structural, Clone, Copy)]
pub enum ConversionError {
    /// The bytes hold no zero byte, so the text has no end.
    MissingTerminator,
    /// The bytes before the terminator are not UTF-8.
    InvalidUtf8,
    /// The text holds a zero byte, which would cut it short on the far side.
    InteriorNul,
}

impl ConversionError {
    /// The line that tells the operator of this error.
    pub open spec fn diagnostic_text(&self) -> Seq<char> {
        match self {
            ConversionError::MissingTerminator => "Failed to convert text: no terminator"@,
            ConversionError::InvalidUtf8 => "Failed to convert text: not UTF-8"@,
            ConversionError::InteriorNul => "Failed to convert text: zero byte inside"@,
        }
    }

    /// Writes the line that tells the operator of this error.
    pub fn diagnostic(&self) -> (r: String)
        ensures
            r@ == self.diagnostic_text(),
    {
        match self {
            ConversionError::MissingTerminator => String::from_str(
                "Failed to convert text: no terminator",
            ),
            ConversionError::InvalidUtf8 => String::from_str("Failed to convert text: not UTF-8"),
            ConversionError::InteriorNul => String::from_str(
                "Failed to convert text: zero byte inside",
            ),
        }
    }
}

/// The position of the first zero byte at or after `from`, or the length of
/// `bytes` where there is none.
pub open spec fn nul_position_from(bytes: Seq<u8>, from: int) -> int
    decreases bytes.len() - from,
{
    if from < 0 || from >= bytes.len() {
        bytes.len() as int
    } else if bytes[from] == 0 {
        from
    } else {
        nul_position_from(bytes, from + 1)
    }
}

/// The position of the first zero byte, or the length of `bytes` where there
/// is none.
pub open spec fn nul_position(bytes: Seq<u8>) -> int {
    nul_position_from(bytes, 0)
}

/// What a zero-terminated run of bytes means as a text.
pub open spec fn decode_c_text(bytes: Seq<u8>) -> Result<Seq<char>, ConversionError> {
    let n = nul_position(bytes);
    if n == bytes.len() {
        Err(ConversionError::MissingTerminator)
    } else if !valid_utf8(bytes.subrange(0, n)) {
        Err(ConversionError::InvalidUtf8)
    } else {
        Ok(decode_utf8(bytes.subrange(0, n)))
    }
}

/// The zero-terminated run of bytes that stands for a text.
pub open spec fn encode_c_text(text: Seq<char>) -> Result<Seq<u8>, ConversionError> {
    let bytes = encode_utf8(text);
    if nul_position(bytes) < bytes.len() {
        Err(ConversionError::InteriorNul)
    } else {
        Ok(bytes.push(0u8))
    }
}

/// `nul_position_from` lies between `from` and the length, no byte before it
/// is zero, and the byte at it is zero where it is inside `bytes`.
pub proof fn lemma_nul_position_from(bytes: Seq<u8>, from: int)
    requires
        0 <= from <= bytes.len(),
    ensures
        from <= nul_position_from(bytes, from) <= bytes.len(),
        forall|j: int| from <= j < nul_position_from(bytes, from) ==> bytes[j] != 0,
        nul_position_from(bytes, from) < bytes.len() ==> bytes[nul_position_from(bytes, from)]
            == 0,
    decreases bytes.len() - from,
{
    if from < bytes.len() && bytes[from] != 0 {
        lemma_nul_position_from(bytes, from + 1);
    }
}

/// A position that holds the first zero byte is the one `nul_position` names.
pub proof fn lemma_nul_position_unique(bytes: Seq<u8>, n: int)
    requires
        0 <= n <= bytes.len(),
        forall|j: int| 0 <= j < n ==> bytes[j] != 0,
        n < bytes.len() ==> bytes[n] == 0,
    ensures
        nul_position(bytes) == n,
{
    lemma_nul_position_from(bytes, 0);
}

/// Finds the first zero byte.
pub fn terminator_position(bytes: &[u8]) -> (r: Option<usize>)
    ensures
        r is Some <==> nul_position(bytes@) < bytes@.len(),
        r is Some ==> r->0 == nul_position(bytes@),
{
    let mut i: usize = 0;
    while i < bytes.len()
        invariant
            i <= bytes@.len(),
            nul_position(bytes@) == nul_position_from(bytes@, i as int),
        decreases bytes@.len() - i,
    {
        if bytes[i] == 0 {
            return Some(i);
        }
        i += 1;
    }
    None
}

/// Decodes UTF-8.
///
/// Calls `std::str::from_utf8` and copies the text it yields. The contract
/// claims what std documents: the call succeeds exactly on valid UTF-8, and
/// the text it yields is the one those bytes encode.
#[verifier::external_body]
fn decode_text(bytes: &[u8]) -> (r: Option<String>)
    ensures
        r is Some <==> valid_utf8(bytes@),
        r is Some ==> r->0@ == decode_utf8(bytes@),
{
    match std::str::from_utf8(bytes) {
        Ok(s) => Some(s.to_string()),
        Err(_) => None,
    }
}

/// Reads a zero-terminated run of bytes as a text. Bytes after the first zero
/// byte are not looked at.
pub fn text_from_c_bytes(bytes: &[u8]) -> (r: Result<String, ConversionError>)
    ensures
        match r {
            Ok(s) => decode_c_text(bytes@) == Ok::<Seq<char>, ConversionError>(s@),
            Err(e) => decode_c_text(bytes@) == Err::<Seq<char>, ConversionError>(e),
        },
{
    proof {
        lemma_nul_position_from(bytes@, 0);
    }
    match terminator_position(bytes) {
        None => Err(ConversionError::MissingTerminator),
        Some(n) => {
            let prefix = slice_subrange(bytes, 0, n);
            assert(prefix@ == bytes@.subrange(0, nul_position(bytes@)));
            match decode_text(prefix) {
                Some(s) => Ok(s),
                None => Err(ConversionError::InvalidUtf8),
            }
        },
    }
}

/// Writes a text as a zero-terminated run of bytes. A text that holds a zero
/// byte is refused, since the far side would read it cut short.
pub fn text_to_c_bytes(text: &str) -> (r: Result<Vec<u8>, ConversionError>)
    ensures
        match r {
            Ok(v) => encode_c_text(text@) == Ok::<Seq<u8>, ConversionError>(v@),
            Err(e) => encode_c_text(text@) == Err::<Seq<u8>, ConversionError>(e),
        },
{
    let bytes = text.as_bytes();
    proof {
        lemma_nul_position_from(bytes@, 0);
    }
    match terminator_position(bytes) {
        Some(_) => Err(ConversionError::InteriorNul),
        None => {
            let mut out = slice_to_vec(bytes);
            out.push(0u8);
            Ok(out)
        },
    }
}

/// A text that can be written across the boundary reads back as itself: where
/// `encode_c_text` succeeds, `decode_c_text` of its bytes is the text.
pub proof fn lemma_text_round_trip(text: Seq<char>)
    requires
        encode_c_text(text) is Ok,
    ensures
        decode_c_text(encode_c_text(text)->Ok_0) == Ok::<Seq<char>, ConversionError>(text),
{
    let bytes = encode_utf8(text);
    let framed = bytes.push(0u8);
    lemma_nul_position_from(bytes, 0);
    assert forall|j: int| 0 <= j < bytes.len() implies framed[j] != 0 by {
        assert(framed[j] == bytes[j]);
    }
    lemma_nul_position_unique(framed, bytes.len() as int);
    assert(framed.subrange(0, bytes.len() as int) =~= bytes);
    encode_utf8_valid_utf8(text);
    encode_utf8_decode_utf8(text);
}

} // verus!
