//! The ways in which decoding a message can fail.

use vstd::prelude::*;

verus! {

/// The enumerations that integer codes are decoded into.
#[derive(Clone, Copy, Debug, PartialEq, Eq, Structural)]
pub enum CodeKind {
    /// The operation code of a header.
    OpCode,
    /// The response code of a header.
    RCode,
    /// The type of a resource record.
    ResourceType,
    /// The class of a resource record.
    ResourceClass,
    /// The type asked for in a question.
    QuestionType,
    /// The class asked for in a question.
    QuestionClass,
}

/// Why a decode call gave up. Every failure is final for the call that met it.
#[derive(Clone, Copy, Debug, PartialEq, Eq, Structural)]
pub enum DecodeError {
    /// An access touched a position at or past the end of the buffer.
    OutOfBounds,
    /// An integer is not the code of any member of the enumeration named.
    UnknownCode(CodeKind),
    /// A name followed more compression pointers than the decoder allows.
    CompressionLoopExceeded,
}

impl DecodeError {
    /// A short description of the failure.
    pub fn message(&self) -> (s: &'static str)
        ensures
            s@ == (match *self {
                DecodeError::OutOfBounds => "End of buffer"@,
                DecodeError::UnknownCode(CodeKind::OpCode) => "OpCode No Exist"@,
                DecodeError::UnknownCode(CodeKind::RCode) => "RCode No Exist"@,
                DecodeError::UnknownCode(CodeKind::ResourceType) => "ResourceType No Exist"@,
                DecodeError::UnknownCode(CodeKind::ResourceClass) => "ResourceClass No Exist"@,
                DecodeError::UnknownCode(CodeKind::QuestionType) => "QuestionType No Exist"@,
                DecodeError::UnknownCode(CodeKind::QuestionClass) => "QuestionClass No Exist"@,
                DecodeError::CompressionLoopExceeded => "Limit of 5 jumps exceeded"@,
            }),
    {
        match self {
            DecodeError::OutOfBounds => "End of buffer",
            DecodeError::UnknownCode(CodeKind::OpCode) => "OpCode No Exist",
            DecodeError::UnknownCode(CodeKind::RCode) => "RCode No Exist",
            DecodeError::UnknownCode(CodeKind::ResourceType) => "ResourceType No Exist",
            DecodeError::UnknownCode(CodeKind::ResourceClass) => "ResourceClass No Exist",
            DecodeError::UnknownCode(CodeKind::QuestionType) => "QuestionType No Exist",
            DecodeError::UnknownCode(CodeKind::QuestionClass) => "QuestionClass No Exist",
            DecodeError::CompressionLoopExceeded => "Limit of 5 jumps exceeded",
        }
    }
}

} // verus!
