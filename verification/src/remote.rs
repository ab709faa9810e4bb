//! The link that reaches the EtherCAT segment through a server on another
//! machine.
use vstd::prelude::*;
use crate::cstr::{decode_nullable, is_text, nullable_view, text_of, InvalidText};

verus! {

/// Reads the address of the server as the foreign caller gives it and
/// returns the text that the socket address is to be parsed from. A null
/// pointer stands for the empty text, which is handed on like any other.
/// Bytes that are not valid UTF-8 are refused.
pub fn AUTDLinkRemoteSOEM(addr: Option<&[u8]>) -> (r: Result<String, InvalidText>)
    ensures
        r is Ok <==> is_text(nullable_view(addr)),
        r matches Ok(text) ==> text@ == text_of(nullable_view(addr)),
{
    decode_nullable(addr)
}

} // verus!
