//! The class asked for in a question: a record class, or any class.

use crate::error::{CodeKind, DecodeError};
use crate::protocol::resource_class_enum::ResourceClass;
use vstd::prelude::*;

verus! {

/// The class a question asks for.
#[derive(Copy, Clone, Debug, PartialEq, Eq, Structural)]
pub enum QuestionClass {
    /// One record class.
    Base(ResourceClass),
    /// Any class.
    All,
}

impl QuestionClass {
    /// The integer that stands for this member on the wire.
    pub open spec fn code(self) -> u16 {
        match self {
            QuestionClass::Base(resource_class) => resource_class.code(),
            QuestionClass::All => 255u16,
        }
    }

    /// The member that `v` stands for, if there is one: a record class where `v`
    /// is the code of one, else the request for any class.
    pub open spec fn from_code(v: u16) -> Option<QuestionClass> {
        if ResourceClass::IN.code() <= v <= ResourceClass::HS.code() {
            match ResourceClass::from_code(v) {
                Some(resource_class) => Some(QuestionClass::Base(resource_class)),
                None => None,
            }
        } else if v == 255u16 {
            Some(QuestionClass::All)
        } else {
            None
        }
    }

    /// The wire code of this member.
    pub fn encode(self) -> (v: u16)
        ensures
            v == self.code(),
    {
        match self {
            QuestionClass::Base(resource_class) => resource_class.encode(),
            QuestionClass::All => 255u16,
        }
    }

    /// The member with wire code `v`. Codes between the lowest and the highest
    /// record class go to the record class's codec; the rest is compared with
    /// the request for any class; anything else is refused.
    pub fn decode(v: u16) -> (r: Result<QuestionClass, DecodeError>)
        ensures
            r == (match QuestionClass::from_code(v) {
                Some(member) => Ok::<QuestionClass, DecodeError>(member),
                None => Err::<QuestionClass, DecodeError>(DecodeError::UnknownCode(CodeKind::QuestionClass)),
            }),
    {
        let lowest: u16 = ResourceClass::IN.encode();
        let highest: u16 = ResourceClass::HS.encode();
        if lowest <= v && v <= highest {
            match ResourceClass::decode(v) {
                Ok(resource_class) => Ok(QuestionClass::Base(resource_class)),
                Err(e) => Err(e),
            }
        } else if v == QuestionClass::All.encode() {
            Ok(QuestionClass::All)
        } else {
            Err(DecodeError::UnknownCode(CodeKind::QuestionClass))
        }
    }

    /// Decoding the code of a member gives that member back.
    pub proof fn lemma_decode_encode(member: QuestionClass)
        ensures
            QuestionClass::from_code(member.code()) == Some(member),
    {
    }

    /// An integer decodes to a member only if it is that member's code.
    pub proof fn lemma_encode_decode(v: u16)
        ensures
            QuestionClass::from_code(v) matches Some(member) ==> member.code() == v,
    {
    }

    /// The codes are exactly the record classes' codes and 255.
    pub proof fn lemma_code_range(v: u16)
        ensures
            QuestionClass::from_code(v) is Some <==> (ResourceClass::from_code(v) is Some || v
                == 255),
    {
    }
}

impl TryFrom<u16> for QuestionClass {
    type Error = DecodeError;

    /// The same as `QuestionClass::decode`.
    fn try_from(v: u16) -> (r: Result<QuestionClass, DecodeError>) {
        QuestionClass::decode(v)
    }
}

impl vstd::std_specs::convert::TryFromSpecImpl<u16> for QuestionClass {
    open spec fn obeys_try_from_spec() -> bool {
        true
    }

    open spec fn try_from_spec(v: u16) -> Result<QuestionClass, DecodeError> {
        match QuestionClass::from_code(v) {
            Some(member) => Ok(member),
            None => Err(DecodeError::UnknownCode(CodeKind::QuestionClass)),
        }
    }
}

impl From<QuestionClass> for u16 {
    /// The same as `QuestionClass::encode`.
    fn from(member: QuestionClass) -> (v: u16) {
        member.encode()
    }
}

impl vstd::std_specs::convert::FromSpecImpl<QuestionClass> for u16 {
    open spec fn obeys_from_spec() -> bool {
        true
    }

    open spec fn from_spec(member: QuestionClass) -> u16 {
        member.code()
    }
}

} // verus!
