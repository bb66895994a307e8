//! The type of a resource record.

use crate::error::{CodeKind, DecodeError};
use vstd::prelude::*;

verus! {

/// The type of a resource record.
#[derive(Copy, Clone, Debug, PartialEq, Eq, Structural)]
pub enum ResourceType {
    /// A host address.
    A,
    /// An authoritative name server.
    NS,
    /// A mail destination (obsolete).
    MD,
    /// A mail forwarder (obsolete).
    MF,
    /// The canonical name for an alias.
    CName,
    /// The start of a zone of authority.
    SOA,
    /// A mailbox domain name.
    MB,
    /// A mail group member.
    MG,
    /// A mail rename domain name.
    MR,
    /// A null record.
    Null,
    /// A well known service description.
    WKS,
    /// A domain name pointer.
    PTR,
    /// Host information.
    HInfo,
    /// Mailbox or mail list information.
    MInfo,
    /// Mail exchange.
    MX,
    /// Text strings.
    Txt,
}

impl ResourceType {
    /// The integer that stands for this member on the wire.
    pub open spec fn code(self) -> u16 {
        match self {
            ResourceType::A => 1u16,
            ResourceType::NS => 2u16,
            ResourceType::MD => 3u16,
            ResourceType::MF => 4u16,
            ResourceType::CName => 5u16,
            ResourceType::SOA => 6u16,
            ResourceType::MB => 7u16,
            ResourceType::MG => 8u16,
            ResourceType::MR => 9u16,
            ResourceType::Null => 10u16,
            ResourceType::WKS => 11u16,
            ResourceType::PTR => 12u16,
            ResourceType::HInfo => 13u16,
            ResourceType::MInfo => 14u16,
            ResourceType::MX => 15u16,
            ResourceType::Txt => 16u16,
        }
    }

    /// The member that `v` stands for, if there is one.
    pub open spec fn from_code(v: u16) -> Option<ResourceType> {
        if v == 1u16 {
            Some(ResourceType::A)
        } else if v == 2u16 {
            Some(ResourceType::NS)
        } else if v == 3u16 {
            Some(ResourceType::MD)
        } else if v == 4u16 {
            Some(ResourceType::MF)
        } else if v == 5u16 {
            Some(ResourceType::CName)
        } else if v == 6u16 {
            Some(ResourceType::SOA)
        } else if v == 7u16 {
            Some(ResourceType::MB)
        } else if v == 8u16 {
            Some(ResourceType::MG)
        } else if v == 9u16 {
            Some(ResourceType::MR)
        } else if v == 10u16 {
            Some(ResourceType::Null)
        } else if v == 11u16 {
            Some(ResourceType::WKS)
        } else if v == 12u16 {
            Some(ResourceType::PTR)
        } else if v == 13u16 {
            Some(ResourceType::HInfo)
        } else if v == 14u16 {
            Some(ResourceType::MInfo)
        } else if v == 15u16 {
            Some(ResourceType::MX)
        } else if v == 16u16 {
            Some(ResourceType::Txt)
        } else {
            None
        }
    }

    /// The wire code of this member.
    pub fn encode(self) -> (v: u16)
        ensures
            v == self.code(),
    {
        match self {
            ResourceType::A => 1u16,
            ResourceType::NS => 2u16,
            ResourceType::MD => 3u16,
            ResourceType::MF => 4u16,
            ResourceType::CName => 5u16,
            ResourceType::SOA => 6u16,
            ResourceType::MB => 7u16,
            ResourceType::MG => 8u16,
            ResourceType::MR => 9u16,
            ResourceType::Null => 10u16,
            ResourceType::WKS => 11u16,
            ResourceType::PTR => 12u16,
            ResourceType::HInfo => 13u16,
            ResourceType::MInfo => 14u16,
            ResourceType::MX => 15u16,
            ResourceType::Txt => 16u16,
        }
    }

    /// The member with wire code `v`; an integer that is no member's code is refused.
    pub fn decode(v: u16) -> (r: Result<ResourceType, DecodeError>)
        ensures
            r == (match ResourceType::from_code(v) {
                Some(member) => Ok::<ResourceType, DecodeError>(member),
                None => Err::<ResourceType, DecodeError>(DecodeError::UnknownCode(CodeKind::ResourceType)),
            }),
    {
        if v == 1u16 {
            Ok(ResourceType::A)
        } else if v == 2u16 {
            Ok(ResourceType::NS)
        } else if v == 3u16 {
            Ok(ResourceType::MD)
        } else if v == 4u16 {
            Ok(ResourceType::MF)
        } else if v == 5u16 {
            Ok(ResourceType::CName)
        } else if v == 6u16 {
            Ok(ResourceType::SOA)
        } else if v == 7u16 {
            Ok(ResourceType::MB)
        } else if v == 8u16 {
            Ok(ResourceType::MG)
        } else if v == 9u16 {
            Ok(ResourceType::MR)
        } else if v == 10u16 {
            Ok(ResourceType::Null)
        } else if v == 11u16 {
            Ok(ResourceType::WKS)
        } else if v == 12u16 {
            Ok(ResourceType::PTR)
        } else if v == 13u16 {
            Ok(ResourceType::HInfo)
        } else if v == 14u16 {
            Ok(ResourceType::MInfo)
        } else if v == 15u16 {
            Ok(ResourceType::MX)
        } else if v == 16u16 {
            Ok(ResourceType::Txt)
        } else {
            Err(DecodeError::UnknownCode(CodeKind::ResourceType))
        }
    }

    /// Decoding the code of a member gives that member back.
    pub proof fn lemma_decode_encode(member: ResourceType)
        ensures
            ResourceType::from_code(member.code()) == Some(member),
    {
    }

    /// An integer decodes to a member only if it is that member's code.
    pub proof fn lemma_encode_decode(v: u16)
        ensures
            ResourceType::from_code(v) matches Some(member) ==> member.code() == v,
    {
    }

    /// The codes are exactly the integers from 1 to 16: anything below the
    /// lowest or above the highest member is refused.
    pub proof fn lemma_code_range(v: u16)
        ensures
            ResourceType::from_code(v) is Some <==> 1 <= v <= 16,
    {
    }
}

impl TryFrom<u16> for ResourceType {
    type Error = DecodeError;

    /// The same as `ResourceType::decode`.
    fn try_from(v: u16) -> (r: Result<ResourceType, DecodeError>) {
        ResourceType::decode(v)
    }
}

impl vstd::std_specs::convert::TryFromSpecImpl<u16> for ResourceType {
    open spec fn obeys_try_from_spec() -> bool {
        true
    }

    open spec fn try_from_spec(v: u16) -> Result<ResourceType, DecodeError> {
        match ResourceType::from_code(v) {
            Some(member) => Ok(member),
            None => Err(DecodeError::UnknownCode(CodeKind::ResourceType)),
        }
    }
}

impl From<ResourceType> for u16 {
    /// The same as `ResourceType::encode`.
    fn from(member: ResourceType) -> (v: u16) {
        member.encode()
    }
}

impl vstd::std_specs::convert::FromSpecImpl<ResourceType> for u16 {
    open spec fn obeys_from_spec() -> bool {
        true
    }

    open spec fn from_spec(member: ResourceType) -> u16 {
        member.code()
    }
}

} // verus!
