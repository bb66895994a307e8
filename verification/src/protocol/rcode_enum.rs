//! The response code of a message header.

use crate::error::{CodeKind, DecodeError};
use vstd::prelude::*;

verus! {

/// The outcome a response reports.
#[derive(Copy, Clone, Debug, PartialEq, Eq, Structural)]
pub enum RCode {
    /// No error condition.
    NoError,
    /// The name server could not interpret the query.
    FormErr,
    /// The name server failed while processing the query.
    ServFail,
    /// The domain name of the query does not exist.
    NameErr,
    /// The name server does not support this kind of query.
    NotImp,
    /// The name server refuses the operation for policy reasons.
    Refused,
}

impl RCode {
    /// The integer that stands for this member on the wire.
    pub open spec fn code(self) -> u8 {
        match self {
            RCode::NoError => 0u8,
            RCode::FormErr => 1u8,
            RCode::ServFail => 2u8,
            RCode::NameErr => 3u8,
            RCode::NotImp => 4u8,
            RCode::Refused => 5u8,
        }
    }

    /// The member that `v` stands for, if there is one.
    pub open spec fn from_code(v: u8) -> Option<RCode> {
        if v == 0u8 {
            Some(RCode::NoError)
        } else if v == 1u8 {
            Some(RCode::FormErr)
        } else if v == 2u8 {
            Some(RCode::ServFail)
        } else if v == 3u8 {
            Some(RCode::NameErr)
        } else if v == 4u8 {
            Some(RCode::NotImp)
        } else if v == 5u8 {
            Some(RCode::Refused)
        } else {
            None
        }
    }

    /// The wire code of this member.
    pub fn encode(self) -> (v: u8)
        ensures
            v == self.code(),
    {
        match self {
            RCode::NoError => 0u8,
            RCode::FormErr => 1u8,
            RCode::ServFail => 2u8,
            RCode::NameErr => 3u8,
            RCode::NotImp => 4u8,
            RCode::Refused => 5u8,
        }
    }

    /// The member with wire code `v`; an integer that is no member's code is refused.
    pub fn decode(v: u8) -> (r: Result<RCode, DecodeError>)
        ensures
            r == (match RCode::from_code(v) {
                Some(member) => Ok::<RCode, DecodeError>(member),
                None => Err::<RCode, DecodeError>(DecodeError::UnknownCode(CodeKind::RCode)),
            }),
    {
        if v == 0u8 {
            Ok(RCode::NoError)
        } else if v == 1u8 {
            Ok(RCode::FormErr)
        } else if v == 2u8 {
            Ok(RCode::ServFail)
        } else if v == 3u8 {
            Ok(RCode::NameErr)
        } else if v == 4u8 {
            Ok(RCode::NotImp)
        } else if v == 5u8 {
            Ok(RCode::Refused)
        } else {
            Err(DecodeError::UnknownCode(CodeKind::RCode))
        }
    }

    /// Decoding the code of a member gives that member back.
    pub proof fn lemma_decode_encode(member: RCode)
        ensures
            RCode::from_code(member.code()) == Some(member),
    {
    }

    /// An integer decodes to a member only if it is that member's code.
    pub proof fn lemma_encode_decode(v: u8)
        ensures
            RCode::from_code(v) matches Some(member) ==> member.code() == v,
    {
    }

    /// The codes are exactly the integers from 0 to 5: anything below the
    /// lowest or above the highest member is refused.
    pub proof fn lemma_code_range(v: u8)
        ensures
            RCode::from_code(v) is Some <==> 0 <= v <= 5,
    {
    }
}

impl TryFrom<u8> for RCode {
    type Error = DecodeError;

    /// The same as `RCode::decode`.
    fn try_from(v: u8) -> (r: Result<RCode, DecodeError>) {
        RCode::decode(v)
    }
}

impl vstd::std_specs::convert::TryFromSpecImpl<u8> for RCode {
    open spec fn obeys_try_from_spec() -> bool {
        true
    }

    open spec fn try_from_spec(v: u8) -> Result<RCode, DecodeError> {
        match RCode::from_code(v) {
            Some(member) => Ok(member),
            None => Err(DecodeError::UnknownCode(CodeKind::RCode)),
        }
    }
}

impl From<RCode> for u8 {
    /// The same as `RCode::encode`.
    fn from(member: RCode) -> (v: u8) {
        member.encode()
    }
}

impl vstd::std_specs::convert::FromSpecImpl<RCode> for u8 {
    open spec fn obeys_from_spec() -> bool {
        true
    }

    open spec fn from_spec(member: RCode) -> u8 {
        member.code()
    }
}

} // verus!
