//! The type asked for in a question: any record type, or one of four wider requests.

use crate::error::{CodeKind, DecodeError};
use crate::protocol::resource_type_enum::ResourceType;
use vstd::prelude::*;

verus! {

/// What a question asks for.
#[derive(Copy, Clone, Debug, PartialEq, Eq, Structural)]
pub enum QuestionType {
    /// One record type.
    Base(ResourceType),
    /// A transfer of an entire zone.
    AxfR,
    /// Mailbox-related records.
    MailB,
    /// Mail agent records (obsolete).
    MailA,
    /// All records.
    All,
}

impl QuestionType {
    /// The integer that stands for this member on the wire.
    pub open spec fn code(self) -> u16 {
        match self {
            QuestionType::Base(resource_type) => resource_type.code(),
            QuestionType::AxfR => 252u16,
            QuestionType::MailB => 253u16,
            QuestionType::MailA => 254u16,
            QuestionType::All => 255u16,
        }
    }

    /// The member that `v` stands for, if there is one: a record type where `v`
    /// is the code of one, else one of the four wider requests.
    pub open spec fn from_code(v: u16) -> Option<QuestionType> {
        if ResourceType::A.code() <= v <= ResourceType::Txt.code() {
            match ResourceType::from_code(v) {
                Some(resource_type) => Some(QuestionType::Base(resource_type)),
                None => None,
            }
        } else if v == 252u16 {
            Some(QuestionType::AxfR)
        } else if v == 253u16 {
            Some(QuestionType::MailB)
        } else if v == 254u16 {
            Some(QuestionType::MailA)
        } else if v == 255u16 {
            Some(QuestionType::All)
        } else {
            None
        }
    }

    /// The wire code of this member.
    pub fn encode(self) -> (v: u16)
        ensures
            v == self.code(),
    {
        match self {
            QuestionType::Base(resource_type) => resource_type.encode(),
            QuestionType::AxfR => 252u16,
            QuestionType::MailB => 253u16,
            QuestionType::MailA => 254u16,
            QuestionType::All => 255u16,
        }
    }

    /// The member with wire code `v`. Codes between the lowest and the highest
    /// record type go to the record type's codec; the rest is compared with the
    /// four wider requests; anything else is refused.
    pub fn decode(v: u16) -> (r: Result<QuestionType, DecodeError>)
        ensures
            r == (match QuestionType::from_code(v) {
                Some(member) => Ok::<QuestionType, DecodeError>(member),
                None => Err::<QuestionType, DecodeError>(DecodeError::UnknownCode(CodeKind::QuestionType)),
            }),
    {
        let lowest: u16 = ResourceType::A.encode();
        let highest: u16 = ResourceType::Txt.encode();
        if lowest <= v && v <= highest {
            match ResourceType::decode(v) {
                Ok(resource_type) => Ok(QuestionType::Base(resource_type)),
                Err(e) => Err(e),
            }
        } else if v == QuestionType::AxfR.encode() {
            Ok(QuestionType::AxfR)
        } else if v == QuestionType::MailB.encode() {
            Ok(QuestionType::MailB)
        } else if v == QuestionType::MailA.encode() {
            Ok(QuestionType::MailA)
        } else if v == QuestionType::All.encode() {
            Ok(QuestionType::All)
        } else {
            Err(DecodeError::UnknownCode(CodeKind::QuestionType))
        }
    }

    /// Decoding the code of a member gives that member back.
    pub proof fn lemma_decode_encode(member: QuestionType)
        ensures
            QuestionType::from_code(member.code()) == Some(member),
    {
    }

    /// An integer decodes to a member only if it is that member's code.
    pub proof fn lemma_encode_decode(v: u16)
        ensures
            QuestionType::from_code(v) matches Some(member) ==> member.code() == v,
    {
    }

    /// The codes are exactly the record types' codes and 252 to 255.
    pub proof fn lemma_code_range(v: u16)
        ensures
            QuestionType::from_code(v) is Some <==> (ResourceType::from_code(v) is Some || 252
                <= v <= 255),
    {
    }
}

impl TryFrom<u16> for QuestionType {
    type Error = DecodeError;

    /// The same as `QuestionType::decode`.
    fn try_from(v: u16) -> (r: Result<QuestionType, DecodeError>) {
        QuestionType::decode(v)
    }
}

impl vstd::std_specs::convert::TryFromSpecImpl<u16> for QuestionType {
    open spec fn obeys_try_from_spec() -> bool {
        true
    }

    open spec fn try_from_spec(v: u16) -> Result<QuestionType, DecodeError> {
        match QuestionType::from_code(v) {
            Some(member) => Ok(member),
            None => Err(DecodeError::UnknownCode(CodeKind::QuestionType)),
        }
    }
}

impl From<QuestionType> for u16 {
    /// The same as `QuestionType::encode`.
    fn from(member: QuestionType) -> (v: u16) {
        member.encode()
    }
}

impl vstd::std_specs::convert::FromSpecImpl<QuestionType> for u16 {
    open spec fn obeys_from_spec() -> bool {
        true
    }

    open spec fn from_spec(member: QuestionType) -> u16 {
        member.code()
    }
}

} // verus!
