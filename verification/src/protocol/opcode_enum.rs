//! The operation code of a message header.

use crate::error::{CodeKind, DecodeError};
use vstd::prelude::*;

verus! {

/// The kind of query a message carries.
#[derive(Copy, Clone, Debug, PartialEq, Eq, Structural)]
pub enum OpCode {
    /// A standard query.
    Query,
    /// An inverse query.
    IQuery,
    /// A server status request.
    Status,
}

impl OpCode {
    /// The integer that stands for this member on the wire.
    pub open spec fn code(self) -> u8 {
        match self {
            OpCode::Query => 0u8,
            OpCode::IQuery => 1u8,
            OpCode::Status => 2u8,
        }
    }

    /// The member that `v` stands for, if there is one.
    pub open spec fn from_code(v: u8) -> Option<OpCode> {
        if v == 0u8 {
            Some(OpCode::Query)
        } else if v == 1u8 {
            Some(OpCode::IQuery)
        } else if v == 2u8 {
            Some(OpCode::Status)
        } else {
            None
        }
    }

    /// The wire code of this member.
    pub fn encode(self) -> (v: u8)
        ensures
            v == self.code(),
    {
        match self {
            OpCode::Query => 0u8,
            OpCode::IQuery => 1u8,
            OpCode::Status => 2u8,
        }
    }

    /// The member with wire code `v`; an integer that is no member's code is refused.
    pub fn decode(v: u8) -> (r: Result<OpCode, DecodeError>)
        ensures
            r == (match OpCode::from_code(v) {
                Some(member) => Ok::<OpCode, DecodeError>(member),
                None => Err::<OpCode, DecodeError>(DecodeError::UnknownCode(CodeKind::OpCode)),
            }),
    {
        if v == 0u8 {
            Ok(OpCode::Query)
        } else if v == 1u8 {
            Ok(OpCode::IQuery)
        } else if v == 2u8 {
            Ok(OpCode::Status)
        } else {
            Err(DecodeError::UnknownCode(CodeKind::OpCode))
        }
    }

    /// Decoding the code of a member gives that member back.
    pub proof fn lemma_decode_encode(member: OpCode)
        ensures
            OpCode::from_code(member.code()) == Some(member),
    {
    }

    /// An integer decodes to a member only if it is that member's code.
    pub proof fn lemma_encode_decode(v: u8)
        ensures
            OpCode::from_code(v) matches Some(member) ==> member.code() == v,
    {
    }

    /// The codes are exactly the integers from 0 to 2: anything below the
    /// lowest or above the highest member is refused.
    pub proof fn lemma_code_range(v: u8)
        ensures
            OpCode::from_code(v) is Some <==> 0 <= v <= 2,
    {
    }
}

impl TryFrom<u8> for OpCode {
    type Error = DecodeError;

    /// The same as `OpCode::decode`.
    fn try_from(v: u8) -> (r: Result<OpCode, DecodeError>) {
        OpCode::decode(v)
    }
}

impl vstd::std_specs::convert::TryFromSpecImpl<u8> for OpCode {
    open spec fn obeys_try_from_spec() -> bool {
        true
    }

    open spec fn try_from_spec(v: u8) -> Result<OpCode, DecodeError> {
        match OpCode::from_code(v) {
            Some(member) => Ok(member),
            None => Err(DecodeError::UnknownCode(CodeKind::OpCode)),
        }
    }
}

impl From<OpCode> for u8 {
    /// The same as `OpCode::encode`.
    fn from(member: OpCode) -> (v: u8) {
        member.encode()
    }
}

impl vstd::std_specs::convert::FromSpecImpl<OpCode> for u8 {
    open spec fn obeys_from_spec() -> bool {
        true
    }

    open spec fn from_spec(member: OpCode) -> u8 {
        member.code()
    }
}

} // verus!
