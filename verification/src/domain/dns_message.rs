//! What the octets of a buffer say: the message that stands at a position, and
//! where the cursor is left once it has been read.
//!
//! Each part of a message has two descriptions: the value that reading it
//! gives, or the failure it meets, and the position at which the cursor stands
//! afterwards, in either case.

use crate::domain::dns_name::{lemma_name_cursor_in_buffer, name_at, name_cursor};
use crate::domain::dns_packet::DnsPacketView;
use crate::domain::dns_packet_buffer::{read_cursor, u16_at, u32_at, DnsPacketBuffer, CAPACITY};
use crate::error::{CodeKind, DecodeError};
use crate::protocol::dns_header::DnsHeader;
use crate::protocol::dns_question::DnsQuestionView;
use crate::protocol::dns_resource_record::DnsRecordView;
use crate::protocol::opcode_enum::OpCode;
use crate::protocol::question_class_enum::QuestionClass;
use crate::protocol::question_type_enum::QuestionType;
use crate::protocol::rcode_enum::RCode;
use crate::protocol::resource_class_enum::ResourceClass;
use crate::protocol::resource_type_enum::ResourceType;
use crate::text::utf8_lossy_text;
use vstd::prelude::*;

verus! {

/// The four-bit operation code in the flags word of a header.
pub open spec fn opcode_bits(flags: u16) -> u8 {
    ((flags >> 11) & 0x0F) as u8
}

/// The four-bit response code in the flags word of a header.
pub open spec fn rcode_bits(flags: u16) -> u8 {
    (flags & 0x0F) as u8
}

/// The header whose twelve octets start at `pos`.
///
/// The second 16-bit word holds the flags, from the highest bit down: response,
/// four bits of operation code, authoritative answer, truncated, recursion
/// desired, recursion available, the reserved bit, authenticated data, checking
/// disabled, four bits of response code. The codes are judged as soon as the
/// flags word has been read, before the four counts, the operation code first.
pub open spec fn header_at(bytes: Seq<u8>, pos: int) -> Result<DnsHeader, DecodeError> {
    if pos + 4 > CAPACITY {
        Err(DecodeError::OutOfBounds)
    } else {
        let flags = u16_at(bytes, pos + 2);
        match OpCode::from_code(opcode_bits(flags)) {
            None => Err(DecodeError::UnknownCode(CodeKind::OpCode)),
            Some(opcode) => match RCode::from_code(rcode_bits(flags)) {
                None => Err(DecodeError::UnknownCode(CodeKind::RCode)),
                Some(r_code) => {
                    if pos + 12 > CAPACITY {
                        Err(DecodeError::OutOfBounds)
                    } else {
                        Ok(
                            DnsHeader {
                                id: u16_at(bytes, pos),
                                response: flags & 0x8000 != 0,
                                opcode,
                                authoritative_answer: flags & 0x0400 != 0,
                                truncated_message: flags & 0x0200 != 0,
                                recursion_desired: flags & 0x0100 != 0,
                                recursion_available: flags & 0x0080 != 0,
                                z: flags & 0x0040 != 0,
                                authed_data: flags & 0x0020 != 0,
                                checking_disabled: flags & 0x0010 != 0,
                                r_code,
                                questions: u16_at(bytes, pos + 4),
                                answers: u16_at(bytes, pos + 6),
                                authoritative_entries: u16_at(bytes, pos + 8),
                                resource_entries: u16_at(bytes, pos + 10),
                            },
                        )
                    }
                },
            },
        }
    }
}

/// Where the cursor stands after the header at `pos` has been read: behind its
/// twelve octets, behind the flags word where a code is unknown, and where the
/// buffer ran out otherwise.
pub open spec fn header_cursor(bytes: Seq<u8>, pos: int) -> int {
    if pos + 4 > CAPACITY {
        read_cursor(pos, 4)
    } else if OpCode::from_code(opcode_bits(u16_at(bytes, pos + 2))) is None || RCode::from_code(
        rcode_bits(u16_at(bytes, pos + 2)),
    ) is None {
        pos + 4
    } else {
        read_cursor(pos + 4, 8)
    }
}

/// The bit `mask` where `flag` holds, no bit where it does not.
pub open spec fn flag_bit(flag: bool, mask: u16) -> u16 {
    if flag {
        mask
    } else {
        0
    }
}

/// The flags word that stands for the flags and codes of `header` on the wire.
pub open spec fn flags_word(header: DnsHeader) -> u16 {
    flag_bit(header.response, 0x8000)
        | ((header.opcode.code() as u16) << 11)
        | flag_bit(header.authoritative_answer, 0x0400)
        | flag_bit(header.truncated_message, 0x0200)
        | flag_bit(header.recursion_desired, 0x0100)
        | flag_bit(header.recursion_available, 0x0080)
        | flag_bit(header.z, 0x0040)
        | flag_bit(header.authed_data, 0x0020)
        | flag_bit(header.checking_disabled, 0x0010)
        | (header.r_code.code() as u16)
}

/// The twelve octets that stand for `header` on the wire: six 16-bit integers,
/// the high octet of each first.
pub open spec fn header_octets(header: DnsHeader) -> Seq<u8> {
    seq![
        (header.id / 0x100) as u8,
        (header.id % 0x100) as u8,
        (flags_word(header) / 0x100) as u8,
        (flags_word(header) % 0x100) as u8,
        (header.questions / 0x100) as u8,
        (header.questions % 0x100) as u8,
        (header.answers / 0x100) as u8,
        (header.answers % 0x100) as u8,
        (header.authoritative_entries / 0x100) as u8,
        (header.authoritative_entries % 0x100) as u8,
        (header.resource_entries / 0x100) as u8,
        (header.resource_entries % 0x100) as u8,
    ]
}

/// The flags word of a header holds each flag and code where the header is
/// read from.
pub proof fn lemma_flags_round_trip(header: DnsHeader)
    ensures
        ({
            let flags = flags_word(header);
            &&& (flags & 0x8000 != 0) == header.response
            &&& opcode_bits(flags) == header.opcode.code()
            &&& (flags & 0x0400 != 0) == header.authoritative_answer
            &&& (flags & 0x0200 != 0) == header.truncated_message
            &&& (flags & 0x0100 != 0) == header.recursion_desired
            &&& (flags & 0x0080 != 0) == header.recursion_available
            &&& (flags & 0x0040 != 0) == header.z
            &&& (flags & 0x0020 != 0) == header.authed_data
            &&& (flags & 0x0010 != 0) == header.checking_disabled
            &&& rcode_bits(flags) == header.r_code.code()
        }),
{
    let qr = flag_bit(header.response, 0x8000);
    let op = header.opcode.code() as u16;
    let aa = flag_bit(header.authoritative_answer, 0x0400);
    let tc = flag_bit(header.truncated_message, 0x0200);
    let rd = flag_bit(header.recursion_desired, 0x0100);
    let ra = flag_bit(header.recursion_available, 0x0080);
    let z = flag_bit(header.z, 0x0040);
    let ad = flag_bit(header.authed_data, 0x0020);
    let cd = flag_bit(header.checking_disabled, 0x0010);
    let rc = header.r_code.code() as u16;
    let flags = qr | (op << 11) | aa | tc | rd | ra | z | ad | cd | rc;
    assert(flags == flags_word(header));
    assert({
        &&& flags & 0x8000 == qr
        &&& (flags >> 11) & 0x0F == op
        &&& flags & 0x0400 == aa
        &&& flags & 0x0200 == tc
        &&& flags & 0x0100 == rd
        &&& flags & 0x0080 == ra
        &&& flags & 0x0040 == z
        &&& flags & 0x0020 == ad
        &&& flags & 0x0010 == cd
        &&& flags & 0x0F == rc
    }) by (bit_vector)
        requires
            flags == qr | (op << 11) | aa | tc | rd | ra | z | ad | cd | rc,
            qr == 0x8000u16 || qr == 0u16,
            op < 16,
            aa == 0x0400u16 || aa == 0u16,
            tc == 0x0200u16 || tc == 0u16,
            rd == 0x0100u16 || rd == 0u16,
            ra == 0x0080u16 || ra == 0u16,
            z == 0x0040u16 || z == 0u16,
            ad == 0x0020u16 || ad == 0u16,
            cd == 0x0010u16 || cd == 0u16,
            rc < 16,
    ;
}

/// Decoding the wire form of a header gives the header back, wherever in the
/// buffer the twelve octets stand.
pub proof fn lemma_header_round_trip(bytes: Seq<u8>, pos: int, header: DnsHeader)
    requires
        0 <= pos,
        pos + 12 <= CAPACITY,
        bytes.len() == CAPACITY,
        bytes.subrange(pos, pos + 12) == header_octets(header),
    ensures
        header_at(bytes, pos) == Ok::<DnsHeader, DecodeError>(header),
{
    let wire = header_octets(header);
    assert forall|i: int| 0 <= i < 12 implies bytes[pos + i] == #[trigger] wire[i] by {
        assert(bytes.subrange(pos, pos + 12)[i] == bytes[pos + i]);
    }
    assert(bytes[pos + 0] == wire[0] && bytes[pos + 1] == wire[1]);
    assert(bytes[pos + 2] == wire[2] && bytes[pos + 3] == wire[3]);
    assert(bytes[pos + 4] == wire[4] && bytes[pos + 5] == wire[5]);
    assert(bytes[pos + 6] == wire[6] && bytes[pos + 7] == wire[7]);
    assert(bytes[pos + 8] == wire[8] && bytes[pos + 9] == wire[9]);
    assert(bytes[pos + 10] == wire[10] && bytes[pos + 11] == wire[11]);
    lemma_flags_round_trip(header);
    OpCode::lemma_decode_encode(header.opcode);
    RCode::lemma_decode_encode(header.r_code);
}

/// The question that starts at `pos`: a name, then 16 bits of type and 16 bits
/// of class.
pub open spec fn question_at(bytes: Seq<u8>, pos: int) -> Result<DnsQuestionView, DecodeError> {
    let fixed = name_cursor(bytes, pos);
    match name_at(bytes, pos) {
        Err(e) => Err(e),
        Ok(name) => {
            if fixed + 2 > CAPACITY {
                Err(DecodeError::OutOfBounds)
            } else {
                match QuestionType::from_code(u16_at(bytes, fixed)) {
                    None => Err(DecodeError::UnknownCode(CodeKind::QuestionType)),
                    Some(q_type) => {
                        if fixed + 4 > CAPACITY {
                            Err(DecodeError::OutOfBounds)
                        } else {
                            match QuestionClass::from_code(u16_at(bytes, fixed + 2)) {
                                None => Err(DecodeError::UnknownCode(CodeKind::QuestionClass)),
                                Some(q_class) => Ok(DnsQuestionView { name, q_type, q_class }),
                            }
                        }
                    },
                }
            }
        },
    }
}

/// Where the cursor stands after the question at `pos` has been read: behind
/// the question, or behind the last part of it that was read before the
/// failure.
pub open spec fn question_cursor(bytes: Seq<u8>, pos: int) -> int {
    let fixed = name_cursor(bytes, pos);
    if name_at(bytes, pos) is Err {
        fixed
    } else if fixed + 2 > CAPACITY || QuestionType::from_code(u16_at(bytes, fixed)) is None {
        read_cursor(fixed, 2)
    } else {
        read_cursor(fixed + 2, 2)
    }
}

/// The resource record that starts at `pos`: a name, 16 bits of type, 16 bits
/// of class, 32 bits of time to live, 16 bits of data length, and that many
/// octets of data, which must end before the last octet of the buffer.
pub open spec fn record_at(bytes: Seq<u8>, pos: int) -> Result<DnsRecordView, DecodeError> {
    let fixed = name_cursor(bytes, pos);
    match name_at(bytes, pos) {
        Err(e) => Err(e),
        Ok(name) => {
            if fixed + 2 > CAPACITY {
                Err(DecodeError::OutOfBounds)
            } else {
                match ResourceType::from_code(u16_at(bytes, fixed)) {
                    None => Err(DecodeError::UnknownCode(CodeKind::ResourceType)),
                    Some(r_type) => {
                        if fixed + 4 > CAPACITY {
                            Err(DecodeError::OutOfBounds)
                        } else {
                            match ResourceClass::from_code(u16_at(bytes, fixed + 2)) {
                                None => Err(DecodeError::UnknownCode(CodeKind::ResourceClass)),
                                Some(r_class) => {
                                    let rd_length = u16_at(bytes, fixed + 8);
                                    let data = fixed + 10;
                                    if data > CAPACITY || data + rd_length >= CAPACITY {
                                        Err(DecodeError::OutOfBounds)
                                    } else {
                                        Ok(
                                            DnsRecordView {
                                                name,
                                                r_type,
                                                r_class,
                                                ttl: u32_at(bytes, fixed + 4),
                                                rd_length,
                                                r_data: utf8_lossy_text(
                                                    bytes.subrange(data, data + rd_length),
                                                ),
                                            },
                                        )
                                    }
                                },
                            }
                        }
                    },
                }
            }
        },
    }
}

/// Where the cursor stands after the record at `pos` has been read: behind the
/// record's data, or behind the last part of the record that was read before
/// the failure.
pub open spec fn record_cursor(bytes: Seq<u8>, pos: int) -> int {
    let fixed = name_cursor(bytes, pos);
    if name_at(bytes, pos) is Err {
        fixed
    } else if fixed + 2 > CAPACITY || ResourceType::from_code(u16_at(bytes, fixed)) is None {
        read_cursor(fixed, 2)
    } else if fixed + 4 > CAPACITY || ResourceClass::from_code(u16_at(bytes, fixed + 2)) is None {
        read_cursor(fixed + 2, 2)
    } else if fixed + 8 > CAPACITY {
        read_cursor(fixed + 4, 4)
    } else if fixed + 10 > CAPACITY {
        read_cursor(fixed + 8, 2)
    } else if fixed + 10 + u16_at(bytes, fixed + 8) >= CAPACITY {
        fixed + 10
    } else {
        fixed + 10 + u16_at(bytes, fixed + 8)
    }
}

/// The first `count` questions read one after another from `pos` on; the first
/// failure, if one of them fails.
pub open spec fn questions_at(bytes: Seq<u8>, pos: int, count: nat) -> Result<
    Seq<DnsQuestionView>,
    DecodeError,
>
    decreases count, 1nat,
{
    if count == 0 {
        Ok(Seq::empty())
    } else {
        match questions_at(bytes, pos, (count - 1) as nat) {
            Err(e) => Err(e),
            Ok(earlier) => match question_at(
                bytes,
                questions_cursor(bytes, pos, (count - 1) as nat),
            ) {
                Err(e) => Err(e),
                Ok(question) => Ok(earlier.push(question)),
            },
        }
    }
}

/// Where the cursor stands after `count` questions were asked for from `pos`
/// on: behind the last one, or where the first failure left it.
pub open spec fn questions_cursor(bytes: Seq<u8>, pos: int, count: nat) -> int
    decreases count, 0nat,
{
    if count == 0 {
        pos
    } else if questions_at(bytes, pos, (count - 1) as nat) is Err {
        questions_cursor(bytes, pos, (count - 1) as nat)
    } else {
        question_cursor(bytes, questions_cursor(bytes, pos, (count - 1) as nat))
    }
}

/// The first `count` records read one after another from `pos` on; the first
/// failure, if one of them fails.
pub open spec fn records_at(bytes: Seq<u8>, pos: int, count: nat) -> Result<
    Seq<DnsRecordView>,
    DecodeError,
>
    decreases count, 1nat,
{
    if count == 0 {
        Ok(Seq::empty())
    } else {
        match records_at(bytes, pos, (count - 1) as nat) {
            Err(e) => Err(e),
            Ok(earlier) => match record_at(bytes, records_cursor(bytes, pos, (count - 1) as nat)) {
                Err(e) => Err(e),
                Ok(record) => Ok(earlier.push(record)),
            },
        }
    }
}

/// Where the cursor stands after `count` records were asked for from `pos` on:
/// behind the last one, or where the first failure left it.
pub open spec fn records_cursor(bytes: Seq<u8>, pos: int, count: nat) -> int
    decreases count, 0nat,
{
    if count == 0 {
        pos
    } else if records_at(bytes, pos, (count - 1) as nat) is Err {
        records_cursor(bytes, pos, (count - 1) as nat)
    } else {
        record_cursor(bytes, records_cursor(bytes, pos, (count - 1) as nat))
    }
}

/// Where the answer section of the message at `pos` starts.
pub open spec fn answers_start(bytes: Seq<u8>, pos: int, header: DnsHeader) -> int {
    questions_cursor(bytes, pos + 12, header.questions as nat)
}

/// Where the authority section of the message at `pos` starts.
pub open spec fn authorities_start(bytes: Seq<u8>, pos: int, header: DnsHeader) -> int {
    records_cursor(bytes, answers_start(bytes, pos, header), header.answers as nat)
}

/// Where the additional section of the message at `pos` starts.
pub open spec fn resources_start(bytes: Seq<u8>, pos: int, header: DnsHeader) -> int {
    records_cursor(
        bytes,
        authorities_start(bytes, pos, header),
        header.authoritative_entries as nat,
    )
}

/// The message whose header starts at `pos`: the header, then as many
/// questions, answers, authority records and additional records as the header
/// counts, each section starting where the one before it ended; or the first
/// failure met on the way.
pub open spec fn message_at(bytes: Seq<u8>, pos: int) -> Result<DnsPacketView, DecodeError> {
    match header_at(bytes, pos) {
        Err(e) => Err(e),
        Ok(header) => match (
            questions_at(bytes, pos + 12, header.questions as nat),
            records_at(bytes, answers_start(bytes, pos, header), header.answers as nat),
            records_at(
                bytes,
                authorities_start(bytes, pos, header),
                header.authoritative_entries as nat,
            ),
            records_at(bytes, resources_start(bytes, pos, header), header.resource_entries as nat),
        ) {
            (Err(e), _, _, _) => Err(e),
            (Ok(_), Err(e), _, _) => Err(e),
            (Ok(_), Ok(_), Err(e), _) => Err(e),
            (Ok(_), Ok(_), Ok(_), Err(e)) => Err(e),
            (Ok(questions), Ok(answers), Ok(authorities), Ok(resources)) => Ok(
                DnsPacketView { header, questions, answers, authorities, resources },
            ),
        },
    }
}

/// Where the cursor stands after the message at `pos` has been read: behind
/// its last record, or where the first failure left it.
pub open spec fn message_cursor(bytes: Seq<u8>, pos: int) -> int {
    match header_at(bytes, pos) {
        Err(_) => header_cursor(bytes, pos),
        Ok(header) => {
            if questions_at(bytes, pos + 12, header.questions as nat) is Err {
                answers_start(bytes, pos, header)
            } else if records_at(bytes, answers_start(bytes, pos, header), header.answers as nat)
                is Err {
                authorities_start(bytes, pos, header)
            } else if records_at(
                bytes,
                authorities_start(bytes, pos, header),
                header.authoritative_entries as nat,
            ) is Err {
                resources_start(bytes, pos, header)
            } else {
                records_cursor(
                    bytes,
                    resources_start(bytes, pos, header),
                    header.resource_entries as nat,
                )
            }
        },
    }
}

/// Once one question of a section fails, the section fails in the same way and
/// the cursor stays where it is, however many questions are asked of it.
pub proof fn lemma_questions_failure_stays(bytes: Seq<u8>, pos: int, failed: nat, count: nat)
    requires
        questions_at(bytes, pos, failed) is Err,
        failed <= count,
    ensures
        questions_at(bytes, pos, count) == questions_at(bytes, pos, failed),
        questions_cursor(bytes, pos, count) == questions_cursor(bytes, pos, failed),
    decreases count,
{
    if failed < count {
        lemma_questions_failure_stays(bytes, pos, failed, (count - 1) as nat);
    }
}

/// Once one record of a section fails, the section fails in the same way and
/// the cursor stays where it is, however many records are asked of it.
pub proof fn lemma_records_failure_stays(bytes: Seq<u8>, pos: int, failed: nat, count: nat)
    requires
        records_at(bytes, pos, failed) is Err,
        failed <= count,
    ensures
        records_at(bytes, pos, count) == records_at(bytes, pos, failed),
        records_cursor(bytes, pos, count) == records_cursor(bytes, pos, failed),
    decreases count,
{
    if failed < count {
        lemma_records_failure_stays(bytes, pos, failed, (count - 1) as nat);
    }
}

/// A section that decodes holds exactly as many questions as were asked of it.
pub proof fn lemma_questions_counted(bytes: Seq<u8>, pos: int, count: nat)
    ensures
        questions_at(bytes, pos, count) matches Ok(questions) ==> questions.len() == count,
    decreases count,
{
    if count > 0 {
        lemma_questions_counted(bytes, pos, (count - 1) as nat);
    }
}

/// A section that decodes holds exactly as many records as were asked of it.
pub proof fn lemma_records_counted(bytes: Seq<u8>, pos: int, count: nat)
    ensures
        records_at(bytes, pos, count) matches Ok(records) ==> records.len() == count,
    decreases count,
{
    if count > 0 {
        lemma_records_counted(bytes, pos, (count - 1) as nat);
    }
}

/// A message that decodes holds in each section exactly as many entries as its
/// header counts.
pub proof fn lemma_sections_match_counts(bytes: Seq<u8>, pos: int)
    ensures
        message_at(bytes, pos) matches Ok(message) ==> {
            &&& message.header == header_at(bytes, pos).unwrap()
            &&& message.questions.len() == message.header.questions
            &&& message.answers.len() == message.header.answers
            &&& message.authorities.len() == message.header.authoritative_entries
            &&& message.resources.len() == message.header.resource_entries
        },
{
    if let Ok(header) = header_at(bytes, pos) {
        lemma_questions_counted(bytes, pos + 12, header.questions as nat);
        lemma_records_counted(bytes, answers_start(bytes, pos, header), header.answers as nat);
        lemma_records_counted(
            bytes,
            authorities_start(bytes, pos, header),
            header.authoritative_entries as nat,
        );
        lemma_records_counted(
            bytes,
            resources_start(bytes, pos, header),
            header.resource_entries as nat,
        );
    }
}

/// A section of questions that decodes leaves the cursor where it started or
/// behind that, and within the buffer if it started there.
pub proof fn lemma_questions_cursor_in_buffer(bytes: Seq<u8>, pos: int, count: nat)
    requires
        pos <= CAPACITY,
    ensures
        questions_at(bytes, pos, count) is Ok ==> pos <= questions_cursor(bytes, pos, count)
            <= CAPACITY,
    decreases count,
{
    if count > 0 {
        lemma_questions_cursor_in_buffer(bytes, pos, (count - 1) as nat);
        lemma_name_cursor_in_buffer(bytes, questions_cursor(bytes, pos, (count - 1) as nat));
    }
}

/// A section of records that decodes leaves the cursor where it started or
/// behind that, and within the buffer if it started there.
pub proof fn lemma_records_cursor_in_buffer(bytes: Seq<u8>, pos: int, count: nat)
    requires
        pos <= CAPACITY,
    ensures
        records_at(bytes, pos, count) is Ok ==> pos <= records_cursor(bytes, pos, count)
            <= CAPACITY,
    decreases count,
{
    if count > 0 {
        lemma_records_cursor_in_buffer(bytes, pos, (count - 1) as nat);
        lemma_name_cursor_in_buffer(bytes, records_cursor(bytes, pos, (count - 1) as nat));
    }
}

/// A message that decodes leaves the cursor behind its header and within the
/// buffer.
pub proof fn lemma_message_cursor_in_buffer(bytes: Seq<u8>, pos: int)
    ensures
        message_at(bytes, pos) is Ok ==> pos + 12 <= message_cursor(bytes, pos) <= CAPACITY,
{
    if let Ok(header) = header_at(bytes, pos) {
        lemma_questions_cursor_in_buffer(bytes, pos + 12, header.questions as nat);
        if questions_at(bytes, pos + 12, header.questions as nat) is Ok {
            lemma_records_cursor_in_buffer(
                bytes,
                answers_start(bytes, pos, header),
                header.answers as nat,
            );
            if records_at(bytes, answers_start(bytes, pos, header), header.answers as nat) is Ok {
                lemma_records_cursor_in_buffer(
                    bytes,
                    authorities_start(bytes, pos, header),
                    header.authoritative_entries as nat,
                );
                if records_at(
                    bytes,
                    authorities_start(bytes, pos, header),
                    header.authoritative_entries as nat,
                ) is Ok {
                    lemma_records_cursor_in_buffer(
                        bytes,
                        resources_start(bytes, pos, header),
                        header.resource_entries as nat,
                    );
                }
            }
        }
    }
}

/// A header that counts at least one question and ends with the buffer makes
/// the message fail with `OutOfBounds`: a count that the octets do not bear out
/// is never answered with a shorter section.
pub proof fn lemma_missing_question_refused(bytes: Seq<u8>, pos: int)
    requires
        header_at(bytes, pos) is Ok,
        header_at(bytes, pos).unwrap().questions > 0,
        pos + 12 >= CAPACITY,
    ensures
        message_at(bytes, pos) == Err::<DnsPacketView, DecodeError>(DecodeError::OutOfBounds),
{
    let count = header_at(bytes, pos).unwrap().questions as nat;
    assert(questions_at(bytes, pos + 12, 0) == Ok::<Seq<DnsQuestionView>, DecodeError>(
        Seq::empty(),
    ));
    assert(questions_cursor(bytes, pos + 12, 0) == pos + 12);
    assert(questions_at(bytes, pos + 12, 1) == Err::<Seq<DnsQuestionView>, DecodeError>(
        DecodeError::OutOfBounds,
    ));
    lemma_questions_failure_stays(bytes, pos + 12, 1, count);
}

/// Decoding is a function of the octets and the cursor: two buffers that agree
/// in both decode to the same message, or fail in the same way, and leave the
/// cursor at the same position.
pub proof fn lemma_decode_deterministic(a: DnsPacketBuffer, b: DnsPacketBuffer)
    requires
        a.bytes() == b.bytes(),
        a.pos == b.pos,
    ensures
        message_at(a.bytes(), a.pos as int) == message_at(b.bytes(), b.pos as int),
        message_cursor(a.bytes(), a.pos as int) == message_cursor(b.bytes(), b.pos as int),
{
}

} // verus!
