//! The class of a resource record.

use crate::error::{CodeKind, DecodeError};
use vstd::prelude::*;

verus! {

/// The class of a resource record.
#[derive(Copy, Clone, Debug, PartialEq, Eq, Structural)]
pub enum ResourceClass {
    /// The Internet.
    IN,
    /// The CSNET class (obsolete).
    CS,
    /// The CHAOS class.
    CH,
    /// Hesiod.
    HS,
}

impl ResourceClass {
    /// The integer that stands for this member on the wire.
    pub open spec fn code(self) -> u16 {
        match self {
            ResourceClass::IN => 1u16,
            ResourceClass::CS => 2u16,
            ResourceClass::CH => 3u16,
            ResourceClass::HS => 4u16,
        }
    }

    /// The member that `v` stands for, if there is one.
    pub open spec fn from_code(v: u16) -> Option<ResourceClass> {
        if v == 1u16 {
            Some(ResourceClass::IN)
        } else if v == 2u16 {
            Some(ResourceClass::CS)
        } else if v == 3u16 {
            Some(ResourceClass::CH)
        } else if v == 4u16 {
            Some(ResourceClass::HS)
        } else {
            None
        }
    }

    /// The wire code of this member.
    pub fn encode(self) -> (v: u16)
        ensures
            v == self.code(),
    {
        match self {
            ResourceClass::IN => 1u16,
            ResourceClass::CS => 2u16,
            ResourceClass::CH => 3u16,
            ResourceClass::HS => 4u16,
        }
    }

    /// The member with wire code `v`; an integer that is no member's code is refused.
    pub fn decode(v: u16) -> (r: Result<ResourceClass, DecodeError>)
        ensures
            r == (match ResourceClass::from_code(v) {
                Some(member) => Ok::<ResourceClass, DecodeError>(member),
                None => Err::<ResourceClass, DecodeError>(DecodeError::UnknownCode(CodeKind::ResourceClass)),
            }),
    {
        if v == 1u16 {
            Ok(ResourceClass::IN)
        } else if v == 2u16 {
            Ok(ResourceClass::CS)
        } else if v == 3u16 {
            Ok(ResourceClass::CH)
        } else if v == 4u16 {
            Ok(ResourceClass::HS)
        } else {
            Err(DecodeError::UnknownCode(CodeKind::ResourceClass))
        }
    }

    /// Decoding the code of a member gives that member back.
    pub proof fn lemma_decode_encode(member: ResourceClass)
        ensures
            ResourceClass::from_code(member.code()) == Some(member),
    {
    }

    /// An integer decodes to a member only if it is that member's code.
    pub proof fn lemma_encode_decode(v: u16)
        ensures
            ResourceClass::from_code(v) matches Some(member) ==> member.code() == v,
    {
    }

    /// The codes are exactly the integers from 1 to 4: anything below the
    /// lowest or above the highest member is refused.
    pub proof fn lemma_code_range(v: u16)
        ensures
            ResourceClass::from_code(v) is Some <==> 1 <= v <= 4,
    {
    }
}

impl TryFrom<u16> for ResourceClass {
    type Error = DecodeError;

    /// The same as `ResourceClass::decode`.
    fn try_from(v: u16) -> (r: Result<ResourceClass, DecodeError>) {
        ResourceClass::decode(v)
    }
}

impl vstd::std_specs::convert::TryFromSpecImpl<u16> for ResourceClass {
    open spec fn obeys_try_from_spec() -> bool {
        true
    }

    open spec fn try_from_spec(v: u16) -> Result<ResourceClass, DecodeError> {
        match ResourceClass::from_code(v) {
            Some(member) => Ok(member),
            None => Err(DecodeError::UnknownCode(CodeKind::ResourceClass)),
        }
    }
}

impl From<ResourceClass> for u16 {
    /// The same as `ResourceClass::encode`.
    fn from(member: ResourceClass) -> (v: u16) {
        member.encode()
    }
}

impl vstd::std_specs::convert::FromSpecImpl<ResourceClass> for u16 {
    open spec fn obeys_from_spec() -> bool {
        true
    }

    open spec fn from_spec(member: ResourceClass) -> u16 {
        member.code()
    }
}

} // verus!
