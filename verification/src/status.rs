//! Status of a slave as it is reported across the boundary.
use vstd::prelude::*;
use vstd::utf8::*;
use crate::cstr::{c_string_of, is_c_string, to_c_string};

verus! {

/// Condition that the link reports for one slave of the EtherCAT segment.
#[derive(Clone, Copy, Debug, PartialEq, Eq, Structural)]
pub enum Status {
    /// The slave is in SAFE_OP + ERROR.
    Error,
    /// The slave is in SAFE_OP.
    StateChanged,
    /// The slave is lost.
    Lost,
}

impl Status {
    /// The byte that stands for this status on the foreign side.
    pub open spec fn tag(self) -> u8 {
        match self {
            Status::Error => 0u8,
            Status::StateChanged => 1u8,
            Status::Lost => 2u8,
        }
    }

    /// The status that the byte `tag` stands for on the foreign side.
    pub open spec fn of_tag(tag: u8) -> Option<Status> {
        if tag == 0 {
            Some(Status::Error)
        } else if tag == 1 {
            Some(Status::StateChanged)
        } else if tag == 2 {
            Some(Status::Lost)
        } else {
            None
        }
    }

    /// The number under which the link engine keeps this status. It is not
    /// the boundary's tag: the engine counts `Lost` before `StateChanged`.
    pub open spec fn engine_code(self) -> u8 {
        match self {
            Status::Error => 0u8,
            Status::Lost => 1u8,
            Status::StateChanged => 2u8,
        }
    }

    /// The status that the link engine keeps under the number `code`.
    pub open spec fn of_engine_code(code: u8) -> Option<Status> {
        if code == 0 {
            Some(Status::Error)
        } else if code == 1 {
            Some(Status::Lost)
        } else if code == 2 {
            Some(Status::StateChanged)
        } else {
            None
        }
    }

    /// Returns the byte that stands for this status on the foreign side.
    pub fn to_u8(self) -> (tag: u8)
        ensures
            tag == self.tag(),
    {
        match self {
            Status::Error => 0,
            Status::StateChanged => 1,
            Status::Lost => 2,
        }
    }

    /// Reads a byte that came from the foreign side. Only 0, 1 and 2 stand
    /// for a status.
    pub fn from_u8(tag: u8) -> (status: Option<Status>)
        ensures
            status == Status::of_tag(tag),
    {
        if tag == 0 {
            Some(Status::Error)
        } else if tag == 1 {
            Some(Status::StateChanged)
        } else if tag == 2 {
            Some(Status::Lost)
        } else {
            None
        }
    }

    /// Returns the number under which the link engine keeps this status.
    pub fn to_engine(self) -> (code: u8)
        ensures
            code == self.engine_code(),
    {
        match self {
            Status::Error => 0,
            Status::Lost => 1,
            Status::StateChanged => 2,
        }
    }

    /// Reads the number of one of the link engine's status values.
    pub fn from_engine(code: u8) -> (status: Option<Status>)
        ensures
            status == Status::of_engine_code(code),
    {
        if code == 0 {
            Some(Status::Error)
        } else if code == 1 {
            Some(Status::Lost)
        } else if code == 2 {
            Some(Status::StateChanged)
        } else {
            None
        }
    }

    /// The message that the link engine gives for this status.
    pub open spec fn message(self) -> Seq<char> {
        match self {
            Status::Error => "slave is in SAFE_OP + ERROR, attempting ack"@,
            Status::StateChanged => "slave is in SAFE_OP, change to OPERATIONAL"@,
            Status::Lost => "slave is lost"@,
        }
    }
}

/// Mapping a status to the engine's number and back gives the status again,
/// and so does mapping it to the boundary's tag and back.
pub proof fn lemma_status_round_trip(status: Status)
    ensures
        Status::of_engine_code(status.engine_code()) == Some(status),
        Status::of_tag(status.tag()) == Some(status),
{
}

/// Both mappings are onto the three values: a number that stands for a status
/// is the number of exactly that status.
pub proof fn lemma_status_codes_are_exact(code: u8)
    ensures
        Status::of_engine_code(code) matches Some(s) ==> s.engine_code() == code,
        Status::of_tag(code) matches Some(s) ==> s.tag() == code,
        Status::of_engine_code(code) is Some <==> code <= 2,
        Status::of_tag(code) is Some <==> code <= 2,
{
}

/// The engine's `Display` of its own `Status`, asked of the engine variant
/// that `status` stands for. The three texts are the ones that the engine's
/// source attaches to the variants.
#[verifier::external_body]
fn engine_status_message(status: Status) -> (msg: String)
    ensures
        msg@ == status.message(),
{
    match status {
        Status::Error => autd3_link_soem::Status::Error,
        Status::StateChanged => autd3_link_soem::Status::StateChanged,
        Status::Lost => autd3_link_soem::Status::Lost,
    }.to_string()
}

/// Every status message is plain ASCII without a nul character, so its C
/// string is the message's characters, one byte each, and a terminator.
pub proof fn lemma_message_is_c_text(status: Status)
    ensures
        is_ascii_chars(status.message()),
        encode_utf8(status.message()).len() == status.message().len(),
        status.message().len() <= 43,
        crate::cstr::nul_free(encode_utf8(status.message())),
{
    reveal_strlit("slave is in SAFE_OP + ERROR, attempting ack");
    reveal_strlit("slave is in SAFE_OP, change to OPERATIONAL");
    reveal_strlit("slave is lost");
    let text = status.message();
    assert(is_ascii_chars(text));
    is_ascii_chars_encode_utf8(text);
    assert forall|i: int| 0 <= i < encode_utf8(text).len() implies encode_utf8(text)[i] != 0u8 by {
        assert(text[i] as u8 == encode_utf8(text)[i]);
        assert(text[i] != '\0');
    }
}

/// The size that is reported for a message holds the message: it is the
/// length of the very C string that a call with a destination writes, which
/// is the message and one terminator.
pub proof fn lemma_reported_size_holds_message(status: Status)
    ensures
        c_string_of(status.message()).len() == status.message().len() + 1,
        c_string_of(status.message()).len() <= 44,
        is_c_string(c_string_of(status.message())),
{
    lemma_message_is_c_text(status);
    assert(c_string_of(status.message()).drop_last() == encode_utf8(status.message()));
}

/// Reports the message of `src` by the size-then-fill protocol. Without a
/// destination the call writes nothing and returns the number of bytes that
/// the message takes as a C string, terminator included. With a destination
/// it replaces the destination's contents by that C string and returns 0.
pub fn AUTDLinkSOEMStatusGetMsg(src: Status, dst: Option<&mut Vec<u8>>) -> (len: u32)
    ensures
        dst is None ==> len == c_string_of(src.message()).len(),
        dst matches Some(buf) ==> len == 0 && final(buf)@ == c_string_of(src.message())
            && is_c_string(final(buf)@),
{
    let msg = engine_status_message(src);
    proof {
        lemma_message_is_c_text(src);
    }
    match dst {
        None => {
            let n = msg.as_str().len();
            (n + 1) as u32
        },
        Some(buf) => {
            match to_c_string(msg.as_str()) {
                Some(bytes) => {
                    *buf = bytes;
                },
                None => {
                    assert(false);
                },
            }
            0
        },
    }
}

} // verus!
