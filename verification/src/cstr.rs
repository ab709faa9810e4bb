//! Text as it crosses the boundary: the bytes of a C string on the way in, a
//! nul-terminated byte string on the way out.
use vstd::prelude::*;
use vstd::string::StringSliceAdditionalSpecFns;
use vstd::utf8::*;

verus! {

/// The error of `core::str::from_utf8`. Nothing is known of what it holds; it
/// is carried to the caller, who can ask it for its message.
#[verifier::external_type_specification]
#[verifier::external_body]
pub struct ExUtf8Error(core::str::Utf8Error);

/// `core::str::from_utf8` succeeds exactly on the byte slices that are valid
/// UTF-8, and the string slice it then returns is made of the very bytes it
/// was given.
pub assume_specification[ core::str::from_utf8 ](v: &[u8]) -> (r: Result<
    &str,
    core::str::Utf8Error,
>)
    ensures
        r is Ok <==> valid_utf8(v@),
        r matches Ok(s) ==> s.spec_bytes() == v@,
;

/// The text that a nullable C string stands for: the empty text for a null
/// pointer, else the characters that its bytes encode.
pub open spec fn text_of(bytes: Option<Seq<u8>>) -> Seq<char> {
    match bytes {
        None => Seq::<char>::empty(),
        Some(b) => decode_utf8(b),
    }
}

/// Whether a nullable C string can be read as text: a null pointer can, and
/// so can every valid UTF-8 encoding.
pub open spec fn is_text(bytes: Option<Seq<u8>>) -> bool {
    match bytes {
        None => true,
        Some(b) => valid_utf8(b),
    }
}

/// The failure to read bytes as text, with the reason that the decoder gave.
#[derive(Debug)]
pub struct InvalidText(pub core::str::Utf8Error);

impl InvalidText {
    /// The decoder's own account of what is wrong with the bytes.
    pub fn message(&self) -> (msg: String)
        ensures
            vstd::string::to_string_from_display_ensures::<core::str::Utf8Error>(&self.0, msg),
    {
        self.0.to_string()
    }
}

/// Decodes the bytes of a C string, terminator excluded, as UTF-8.
pub fn decode(bytes: &[u8]) -> (r: Result<String, InvalidText>)
    ensures
        r is Ok <==> valid_utf8(bytes@),
        r matches Ok(s) ==> s@ == decode_utf8(bytes@),
{
    match core::str::from_utf8(bytes) {
        Ok(s) => {
            proof {
                encode_utf8_decode_utf8(s@);
            }
            Ok(s.to_owned())
        },
        Err(e) => Err(InvalidText(e)),
    }
}

/// Decodes a nullable C string, reading a null pointer as the empty text.
pub fn decode_nullable(bytes: Option<&[u8]>) -> (r: Result<String, InvalidText>)
    ensures
        r is Ok <==> is_text(nullable_view(bytes)),
        r matches Ok(s) ==> s@ == text_of(nullable_view(bytes)),
{
    match bytes {
        None => Ok(String::new()),
        Some(b) => decode(b),
    }
}

/// The bytes behind a nullable byte slice.
pub open spec fn nullable_view(bytes: Option<&[u8]>) -> Option<Seq<u8>> {
    match bytes {
        None => None,
        Some(b) => Some(b@),
    }
}

/// Whether `bytes` can be the contents of a C string: no byte of it is nul.
pub open spec fn nul_free(bytes: Seq<u8>) -> bool {
    forall|i: int| 0 <= i < bytes.len() ==> bytes[i] != 0u8
}

/// Whether `bytes` is a C string: it ends in a nul byte, its only one.
pub open spec fn is_c_string(bytes: Seq<u8>) -> bool {
    &&& bytes.len() > 0
    &&& bytes.last() == 0u8
    &&& nul_free(bytes.drop_last())
}

/// The C string that holds `text`: its UTF-8 encoding followed by a nul byte.
pub open spec fn c_string_of(text: Seq<char>) -> Seq<u8> {
    encode_utf8(text).push(0u8)
}

/// Tells whether `text` can be the contents of a C string.
pub fn is_nul_free(text: &str) -> (free: bool)
    ensures
        free == nul_free(encode_utf8(text@)),
{
    let bytes = text.as_bytes();
    let mut i: usize = 0;
    while i < bytes.len()
        invariant
            i <= bytes@.len(),
            bytes@ == encode_utf8(text@),
            nul_free(bytes@.subrange(0, i as int)),
        decreases bytes@.len() - i,
    {
        if bytes[i] == 0 {
            return false;
        }
        i = i + 1;
        assert forall|k: int| 0 <= k < i implies bytes@.subrange(0, i as int)[k] != 0u8 by {
            if k < i - 1 {
                assert(bytes@.subrange(0, i - 1)[k] != 0u8);
            }
        }
    }
    assert(bytes@.subrange(0, i as int) == bytes@);
    true
}

/// Copies `text` into a fresh nul-terminated byte string. A text whose
/// encoding holds a nul byte has no such string and yields `None`.
pub fn to_c_string(text: &str) -> (r: Option<Vec<u8>>)
    ensures
        r is Some <==> nul_free(encode_utf8(text@)),
        r matches Some(v) ==> v@ == c_string_of(text@) && is_c_string(v@),
{
    let bytes = text.as_bytes();
    let mut out: Vec<u8> = Vec::new();
    let mut i: usize = 0;
    while i < bytes.len()
        invariant
            i <= bytes@.len(),
            bytes@ == encode_utf8(text@),
            out@ == bytes@.subrange(0, i as int),
            nul_free(out@),
        decreases bytes@.len() - i,
    {
        let b = bytes[i];
        if b == 0 {
            return None;
        }
        out.push(b);
        i = i + 1;
    }
    assert(out@ == bytes@);
    out.push(0);
    assert(out@.drop_last() == bytes@);
    Some(out)
}

} // verus!
