use dns_decoder::error::{CodeKind, DecodeError};
use dns_decoder::protocol::opcode_enum::OpCode;
use dns_decoder::protocol::question_class_enum::QuestionClass;
use dns_decoder::protocol::question_type_enum::QuestionType;
use dns_decoder::protocol::rcode_enum::RCode;
use dns_decoder::protocol::resource_class_enum::ResourceClass;
use dns_decoder::protocol::resource_type_enum::ResourceType;

#[test]
fn opcode_codes() {
    assert_eq!(OpCode::decode(0), Ok(OpCode::Query));
    assert_eq!(OpCode::decode(1), Ok(OpCode::IQuery));
    assert_eq!(OpCode::decode(2), Ok(OpCode::Status));
    assert_eq!(OpCode::Status.encode(), 2);
}

#[test]
fn opcode_one_past_highest_is_refused() {
    assert_eq!(OpCode::decode(3), Err(DecodeError::UnknownCode(CodeKind::OpCode)));
    assert_eq!(OpCode::decode(15), Err(DecodeError::UnknownCode(CodeKind::OpCode)));
    assert_eq!(OpCode::decode(255), Err(DecodeError::UnknownCode(CodeKind::OpCode)));
}

#[test]
fn rcode_codes() {
    let members = [
        RCode::NoError,
        RCode::FormErr,
        RCode::ServFail,
        RCode::NameErr,
        RCode::NotImp,
        RCode::Refused,
    ];
    for (i, member) in members.iter().enumerate() {
        assert_eq!(member.encode(), i as u8);
        assert_eq!(RCode::decode(i as u8), Ok(*member));
    }
}

#[test]
fn rcode_one_past_highest_is_refused() {
    assert_eq!(RCode::decode(6), Err(DecodeError::UnknownCode(CodeKind::RCode)));
}

#[test]
fn resource_class_codes() {
    let members = [ResourceClass::IN, ResourceClass::CS, ResourceClass::CH, ResourceClass::HS];
    for (i, member) in members.iter().enumerate() {
        assert_eq!(member.encode(), i as u16 + 1);
        assert_eq!(ResourceClass::decode(i as u16 + 1), Ok(*member));
    }
}

#[test]
fn resource_class_outside_range_is_refused() {
    assert_eq!(ResourceClass::decode(0), Err(DecodeError::UnknownCode(CodeKind::ResourceClass)));
    assert_eq!(ResourceClass::decode(5), Err(DecodeError::UnknownCode(CodeKind::ResourceClass)));
    assert_eq!(ResourceClass::decode(255), Err(DecodeError::UnknownCode(CodeKind::ResourceClass)));
}

#[test]
fn resource_type_codes() {
    let members = [
        ResourceType::A,
        ResourceType::NS,
        ResourceType::MD,
        ResourceType::MF,
        ResourceType::CName,
        ResourceType::SOA,
        ResourceType::MB,
        ResourceType::MG,
        ResourceType::MR,
        ResourceType::Null,
        ResourceType::WKS,
        ResourceType::PTR,
        ResourceType::HInfo,
        ResourceType::MInfo,
        ResourceType::MX,
        ResourceType::Txt,
    ];
    for (i, member) in members.iter().enumerate() {
        assert_eq!(member.encode(), i as u16 + 1);
        assert_eq!(ResourceType::decode(i as u16 + 1), Ok(*member));
    }
}

#[test]
fn resource_type_seventeen_is_refused() {
    assert_eq!(ResourceType::decode(17), Err(DecodeError::UnknownCode(CodeKind::ResourceType)));
    assert_eq!(ResourceType::decode(0), Err(DecodeError::UnknownCode(CodeKind::ResourceType)));
    assert_eq!(ResourceType::decode(u16::MAX), Err(DecodeError::UnknownCode(CodeKind::ResourceType)));
}

#[test]
fn question_type_wraps_resource_types() {
    assert_eq!(QuestionType::decode(1), Ok(QuestionType::Base(ResourceType::A)));
    assert_eq!(QuestionType::decode(9), Ok(QuestionType::Base(ResourceType::MR)));
    assert_eq!(QuestionType::decode(16), Ok(QuestionType::Base(ResourceType::Txt)));
    assert_eq!(QuestionType::Base(ResourceType::MX).encode(), 15);
}

#[test]
fn question_type_extra_codes() {
    assert_eq!(QuestionType::decode(252), Ok(QuestionType::AxfR));
    assert_eq!(QuestionType::decode(253), Ok(QuestionType::MailB));
    assert_eq!(QuestionType::decode(254), Ok(QuestionType::MailA));
    assert_eq!(QuestionType::decode(255), Ok(QuestionType::All));
    assert_eq!(QuestionType::AxfR.encode(), 252);
    assert_eq!(QuestionType::MailB.encode(), 253);
    assert_eq!(QuestionType::MailA.encode(), 254);
    assert_eq!(QuestionType::All.encode(), 255);
}

#[test]
fn question_type_unknown_codes_are_refused() {
    assert_eq!(QuestionType::decode(0), Err(DecodeError::UnknownCode(CodeKind::QuestionType)));
    assert_eq!(QuestionType::decode(17), Err(DecodeError::UnknownCode(CodeKind::QuestionType)));
    assert_eq!(QuestionType::decode(251), Err(DecodeError::UnknownCode(CodeKind::QuestionType)));
    assert_eq!(QuestionType::decode(256), Err(DecodeError::UnknownCode(CodeKind::QuestionType)));
}

#[test]
fn question_class_codes() {
    assert_eq!(QuestionClass::decode(1), Ok(QuestionClass::Base(ResourceClass::IN)));
    assert_eq!(QuestionClass::decode(4), Ok(QuestionClass::Base(ResourceClass::HS)));
    assert_eq!(QuestionClass::decode(255), Ok(QuestionClass::All));
    assert_eq!(QuestionClass::Base(ResourceClass::CH).encode(), 3);
    assert_eq!(QuestionClass::All.encode(), 255);
}

#[test]
fn question_class_unknown_codes_are_refused() {
    assert_eq!(QuestionClass::decode(0), Err(DecodeError::UnknownCode(CodeKind::QuestionClass)));
    assert_eq!(QuestionClass::decode(5), Err(DecodeError::UnknownCode(CodeKind::QuestionClass)));
    assert_eq!(QuestionClass::decode(254), Err(DecodeError::UnknownCode(CodeKind::QuestionClass)));
    assert_eq!(QuestionClass::decode(256), Err(DecodeError::UnknownCode(CodeKind::QuestionClass)));
}

#[test]
fn every_code_round_trips() {
    for v in 0..=u8::MAX {
        if let Ok(member) = OpCode::decode(v) {
            assert_eq!(member.encode(), v);
        }
        if let Ok(member) = RCode::decode(v) {
            assert_eq!(member.encode(), v);
        }
    }
    for v in 0..=u16::MAX {
        if let Ok(member) = ResourceType::decode(v) {
            assert_eq!(member.encode(), v);
        }
        if let Ok(member) = ResourceClass::decode(v) {
            assert_eq!(member.encode(), v);
        }
        if let Ok(member) = QuestionType::decode(v) {
            assert_eq!(member.encode(), v);
        }
        if let Ok(member) = QuestionClass::decode(v) {
            assert_eq!(member.encode(), v);
        }
    }
}

#[test]
fn std_conversions_agree_with_the_codecs() {
    assert_eq!(OpCode::try_from(1u8), Ok(OpCode::IQuery));
    assert_eq!(OpCode::try_from(9u8), Err(DecodeError::UnknownCode(CodeKind::OpCode)));
    assert_eq!(u8::from(OpCode::Status), 2);
    assert_eq!(RCode::try_from(5u8), Ok(RCode::Refused));
    assert_eq!(u8::from(RCode::NameErr), 3);
    assert_eq!(ResourceType::try_from(5u16), Ok(ResourceType::CName));
    assert_eq!(ResourceType::try_from(17u16), Err(DecodeError::UnknownCode(CodeKind::ResourceType)));
    assert_eq!(u16::from(ResourceType::Txt), 16);
    assert_eq!(ResourceClass::try_from(1u16), Ok(ResourceClass::IN));
    assert_eq!(u16::from(ResourceClass::HS), 4);
    assert_eq!(QuestionType::try_from(252u16), Ok(QuestionType::AxfR));
    assert_eq!(u16::from(QuestionType::Base(ResourceType::NS)), 2);
    assert_eq!(QuestionClass::try_from(255u16), Ok(QuestionClass::All));
    assert_eq!(u16::from(QuestionClass::Base(ResourceClass::CS)), 2);
}
