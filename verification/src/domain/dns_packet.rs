//! Decoding a whole message: the header, then the four sections.
//!
//! ```text
//! +---------------------+
//! |        Header       |
//! +---------------------+
//! |       Question      | the question for the name server
//! +---------------------+
//! |        Answer       | records answering the question
//! +---------------------+
//! |      Authority      | records pointing toward an authority
//! +---------------------+
//! |      Additional     | records holding additional information
//! +---------------------+
//! ```

use crate::domain::dns_name::{
    cursor_from, dotted, name_at, name_cursor, name_labels, prefixed, MAX_JUMPS,
};
use crate::domain::dns_message::{
    header_at, header_cursor, lemma_questions_failure_stays, lemma_records_failure_stays,
    lemma_sections_match_counts, message_at, message_cursor, question_at, question_cursor,
    questions_at, questions_cursor, record_at, record_cursor, records_at, records_cursor,
};
use crate::domain::dns_packet_buffer::{DnsPacketBuffer, CAPACITY};
use crate::error::DecodeError;
use crate::protocol::dns_header::DnsHeader;
use crate::protocol::dns_question::{DnsQuestion, DnsQuestionView};
use crate::protocol::dns_resource_record::{DnsRecord, DnsRecordView};
use crate::protocol::opcode_enum::OpCode;
use crate::protocol::question_class_enum::QuestionClass;
use crate::protocol::question_type_enum::QuestionType;
use crate::protocol::rcode_enum::RCode;
use crate::protocol::resource_class_enum::ResourceClass;
use crate::protocol::resource_type_enum::ResourceType;
use crate::text::{lowercase, utf8_lossy};
use vstd::prelude::*;
use vstd::string::StringExecFns;

verus! {

/// A decoded message.
#[derive(Clone, Debug)]
pub struct DnsPacket {
    /// The header, whose counts give the lengths of the four sections.
    pub header: DnsHeader,
    /// The question section.
    pub questions: Vec<DnsQuestion>,
    /// The answer section.
    pub answers: Vec<DnsRecord>,
    /// The authority section.
    pub authorities: Vec<DnsRecord>,
    /// The additional section.
    pub resources: Vec<DnsRecord>,
}

/// A message as a plain value.
pub struct DnsPacketView {
    pub header: DnsHeader,
    pub questions: Seq<DnsQuestionView>,
    pub answers: Seq<DnsRecordView>,
    pub authorities: Seq<DnsRecordView>,
    pub resources: Seq<DnsRecordView>,
}

/// The questions of a list as plain values.
pub open spec fn question_views(questions: Seq<DnsQuestion>) -> Seq<DnsQuestionView> {
    questions.map_values(|q: DnsQuestion| q@)
}

/// The records of a list as plain values.
pub open spec fn record_views(records: Seq<DnsRecord>) -> Seq<DnsRecordView> {
    records.map_values(|r: DnsRecord| r@)
}

impl View for DnsPacket {
    type V = DnsPacketView;

    open spec fn view(&self) -> DnsPacketView {
        DnsPacketView {
            header: self.header,
            questions: question_views(self.questions@),
            answers: record_views(self.answers@),
            authorities: record_views(self.authorities@),
            resources: record_views(self.resources@),
        }
    }
}

/// The text of a decoded name, or the failure in its place.
pub open spec fn text_of(r: Result<String, DecodeError>) -> Result<Seq<char>, DecodeError> {
    match r {
        Ok(s) => Ok(s@),
        Err(e) => Err(e),
    }
}

impl DnsPacket {
    /// A message with an empty header and no entries.
    pub fn new() -> (p: DnsPacket)
        ensures
            p@ == (DnsPacketView {
                header: DnsHeader::empty(),
                questions: Seq::empty(),
                answers: Seq::empty(),
                authorities: Seq::empty(),
                resources: Seq::empty(),
            }),
    {
        let p = DnsPacket {
            header: DnsHeader::new(),
            questions: Vec::new(),
            answers: Vec::new(),
            authorities: Vec::new(),
            resources: Vec::new(),
        };
        proof {
            assert(question_views(p.questions@) =~= Seq::empty());
            assert(record_views(p.answers@) =~= Seq::empty());
            assert(record_views(p.authorities@) =~= Seq::empty());
            assert(record_views(p.resources@) =~= Seq::empty());
        }
        p
    }

    /// Decodes the message at the cursor: the header, then the four sections
    /// with as many entries as the header counts. The first failure ends the
    /// call, and nothing of what was decoded before it is returned.
    pub fn decode(buffer: &mut DnsPacketBuffer) -> (r: Result<DnsPacket, DecodeError>)
        ensures
            final(buffer).buf == old(buffer).buf,
            final(buffer).pos == message_cursor(old(buffer).bytes(), old(buffer).pos as int),
            match message_at(old(buffer).bytes(), old(buffer).pos as int) {
                Ok(message) => r is Ok && r.unwrap()@ == message,
                Err(e) => r is Err && r.unwrap_err() == e,
            },
            r matches Ok(packet) ==> {
                &&& packet.questions@.len() == packet.header.questions
                &&& packet.answers@.len() == packet.header.answers
                &&& packet.authorities@.len() == packet.header.authoritative_entries
                &&& packet.resources@.len() == packet.header.resource_entries
            },
    {
        proof {
            lemma_sections_match_counts(old(buffer).bytes(), old(buffer).pos as int);
        }
        let header = Self::decode_header(buffer)?;
        let questions = Self::decode_questions(buffer, header.questions)?;
        let answers = Self::decode_records(buffer, header.answers)?;
        let authorities = Self::decode_records(buffer, header.authoritative_entries)?;
        let resources = Self::decode_records(buffer, header.resource_entries)?;
        Ok(DnsPacket { header, questions, answers, authorities, resources })
    }

    /// Decodes `count` questions one after another.
    fn decode_questions(buffer: &mut DnsPacketBuffer, count: u16) -> (r: Result<
        Vec<DnsQuestion>,
        DecodeError,
    >)
        ensures
            final(buffer).buf == old(buffer).buf,
            final(buffer).pos == questions_cursor(
                old(buffer).bytes(),
                old(buffer).pos as int,
                count as nat,
            ),
            match questions_at(old(buffer).bytes(), old(buffer).pos as int, count as nat) {
                Ok(questions) => r is Ok && question_views(r.unwrap()@) == questions,
                Err(e) => r is Err && r.unwrap_err() == e,
            },
    {
        let ghost bytes = buffer.bytes();
        let ghost start = buffer.pos as int;
        let mut questions: Vec<DnsQuestion> = Vec::new();
        let mut done: u16 = 0;
        proof {
            assert(question_views(questions@) =~= Seq::empty());
        }
        while done < count
            invariant
                buffer.buf == old(buffer).buf,
                bytes == old(buffer).bytes(),
                start == old(buffer).pos,
                done <= count,
                questions_at(bytes, start, done as nat) == Ok::<Seq<DnsQuestionView>, DecodeError>(
                    question_views(questions@),
                ),
                questions_cursor(bytes, start, done as nat) == buffer.pos,
            decreases count - done,
        {
            let ghost earlier = questions@;
            match Self::decode_question(buffer) {
                Ok(question) => {
                    questions.push(question);
                    proof {
                        assert(question_views(questions@) =~= question_views(earlier).push(
                            question@,
                        ));
                    }
                },
                Err(e) => {
                    proof {
                        lemma_questions_failure_stays(
                            bytes,
                            start,
                            (done + 1) as nat,
                            count as nat,
                        );
                    }
                    return Err(e);
                },
            }
            done += 1;
        }
        Ok(questions)
    }

    /// Decodes `count` resource records one after another.
    fn decode_records(buffer: &mut DnsPacketBuffer, count: u16) -> (r: Result<
        Vec<DnsRecord>,
        DecodeError,
    >)
        ensures
            final(buffer).buf == old(buffer).buf,
            final(buffer).pos == records_cursor(
                old(buffer).bytes(),
                old(buffer).pos as int,
                count as nat,
            ),
            match records_at(old(buffer).bytes(), old(buffer).pos as int, count as nat) {
                Ok(records) => r is Ok && record_views(r.unwrap()@) == records,
                Err(e) => r is Err && r.unwrap_err() == e,
            },
    {
        let ghost bytes = buffer.bytes();
        let ghost start = buffer.pos as int;
        let mut records: Vec<DnsRecord> = Vec::new();
        let mut done: u16 = 0;
        proof {
            assert(record_views(records@) =~= Seq::empty());
        }
        while done < count
            invariant
                buffer.buf == old(buffer).buf,
                bytes == old(buffer).bytes(),
                start == old(buffer).pos,
                done <= count,
                records_at(bytes, start, done as nat) == Ok::<Seq<DnsRecordView>, DecodeError>(
                    record_views(records@),
                ),
                records_cursor(bytes, start, done as nat) == buffer.pos,
            decreases count - done,
        {
            let ghost earlier = records@;
            match Self::decode_record(buffer) {
                Ok(record) => {
                    records.push(record);
                    proof {
                        assert(record_views(records@) =~= record_views(earlier).push(record@));
                    }
                },
                Err(e) => {
                    proof {
                        lemma_records_failure_stays(bytes, start, (done + 1) as nat, count as nat);
                    }
                    return Err(e);
                },
            }
            done += 1;
        }
        Ok(records)
    }

    /// Decodes the twelve-octet header at the cursor.
    pub fn decode_header(buffer: &mut DnsPacketBuffer) -> (r: Result<DnsHeader, DecodeError>)
        ensures
            final(buffer).buf == old(buffer).buf,
            final(buffer).pos == header_cursor(old(buffer).bytes(), old(buffer).pos as int),
            r == header_at(old(buffer).bytes(), old(buffer).pos as int),
    {
        let id = buffer.read_u16()?;
        let flags = buffer.read_u16()?;

        let response = (flags & 0x8000) != 0;
        let opcode = OpCode::decode(((flags >> 11) & 0x0F) as u8)?;
        let authoritative_answer = (flags & 0x0400) != 0;
        let truncated_message = (flags & 0x0200) != 0;
        let recursion_desired = (flags & 0x0100) != 0;
        let recursion_available = (flags & 0x0080) != 0;
        let z = (flags & 0x0040) != 0;
        let authed_data = (flags & 0x0020) != 0;
        let checking_disabled = (flags & 0x0010) != 0;
        let r_code = RCode::decode((flags & 0x0F) as u8)?;

        let questions = buffer.read_u16()?;
        let answers = buffer.read_u16()?;
        let authoritative_entries = buffer.read_u16()?;
        let resource_entries = buffer.read_u16()?;

        Ok(
            DnsHeader {
                id,
                response,
                opcode,
                authoritative_answer,
                truncated_message,
                recursion_desired,
                recursion_available,
                z,
                authed_data,
                checking_disabled,
                r_code,
                questions,
                answers,
                authoritative_entries,
                resource_entries,
            },
        )
    }

    /// Decodes the question at the cursor: its name, type and class.
    pub fn decode_question(buffer: &mut DnsPacketBuffer) -> (r: Result<DnsQuestion, DecodeError>)
        ensures
            final(buffer).buf == old(buffer).buf,
            final(buffer).pos == question_cursor(old(buffer).bytes(), old(buffer).pos as int),
            match question_at(old(buffer).bytes(), old(buffer).pos as int) {
                Ok(question) => r is Ok && r.unwrap()@ == question,
                Err(e) => r is Err && r.unwrap_err() == e,
            },
    {
        let name = Self::decode_name(buffer)?;
        let q_type = QuestionType::decode(buffer.read_u16()?)?;
        let q_class = QuestionClass::decode(buffer.read_u16()?)?;
        Ok(DnsQuestion { name, q_type, q_class })
    }

    /// Decodes the resource record at the cursor. The data octets are turned
    /// into text as they stand; what they mean for the record's type is not
    /// looked at.
    pub fn decode_record(buffer: &mut DnsPacketBuffer) -> (r: Result<DnsRecord, DecodeError>)
        ensures
            final(buffer).buf == old(buffer).buf,
            final(buffer).pos == record_cursor(old(buffer).bytes(), old(buffer).pos as int),
            match record_at(old(buffer).bytes(), old(buffer).pos as int) {
                Ok(record) => r is Ok && r.unwrap()@ == record,
                Err(e) => r is Err && r.unwrap_err() == e,
            },
    {
        let domain = Self::decode_name(buffer)?;

        let resource_type = ResourceType::decode(buffer.read_u16()?)?;
        let resource_class = ResourceClass::decode(buffer.read_u16()?)?;

        let ttl = buffer.read_u32()?;
        let rd_length = buffer.read_u16()?;

        let start = buffer.pos();
        let str_buffer = buffer.get_range(start, rd_length as usize)?;
        let r_data = utf8_lossy(str_buffer);
        buffer.step(rd_length as usize)?;

        Ok(
            DnsRecord {
                name: domain,
                r_type: resource_type,
                r_class: resource_class,
                ttl,
                rd_length,
                r_data,
            },
        )
    }

    /// Decodes the domain name at the cursor, following compression pointers.
    ///
    /// The result is the name's labels in lowercase, joined by dots. The cursor
    /// ends behind the octets that the name takes up where it stands: behind the
    /// closing zero octet, or behind the first pointer, however many pointers
    /// are followed after it.
    pub fn decode_name(buffer: &mut DnsPacketBuffer) -> (r: Result<String, DecodeError>)
        ensures
            final(buffer).buf == old(buffer).buf,
            final(buffer).pos == name_cursor(old(buffer).bytes(), old(buffer).pos as int),
            text_of(r) == name_at(old(buffer).bytes(), old(buffer).pos as int),
    {
        let ghost bytes = buffer.bytes();
        let ghost start = buffer.pos as int;
        let mut domain_name = String::new();
        let mut pos: usize = buffer.pos();
        let mut jumped = false;
        let mut jumps_performed: usize = 0;
        let mut delimiter = "";
        let ghost mut labels: Seq<Seq<u8>> = Seq::empty();
        proof {
            reveal_strlit("");
            reveal_strlit(".");
            assert(prefixed(labels, name_labels(bytes, start, 0)) == name_labels(bytes, start, 0))
                by {
                match name_labels(bytes, start, 0) {
                    Ok(tail) => {
                        assert(labels + tail =~= tail);
                    },
                    Err(_) => {},
                }
            }
        }
        loop
            invariant
                buffer.buf == old(buffer).buf,
                bytes == old(buffer).bytes(),
                start == old(buffer).pos,
                bytes.len() == CAPACITY,
                jumps_performed <= MAX_JUMPS + 1,
                jumped <==> jumps_performed > 0,
                name_labels(bytes, start, 0) == prefixed(
                    labels,
                    name_labels(bytes, pos as int, jumps_performed as int),
                ),
                domain_name@ == dotted(labels),
                delimiter@ == (if labels.len() == 0 {
                    Seq::<char>::empty()
                } else {
                    seq!['.']
                }),
                jumped ==> buffer.pos == name_cursor(bytes, start),
                !jumped ==> buffer.pos == start && cursor_from(bytes, start, pos as int)
                    == name_cursor(bytes, start),
                pos == start || start < CAPACITY,
            decreases MAX_JUMPS + 1 - jumps_performed, CAPACITY - pos,
        {
            let len = buffer.get(pos)?;
            assert((len & 0xC0) == 0xC0 <==> len >= 0xC0) by (bit_vector);
            if (len & 0xC0) == 0xC0 {
                if jumps_performed > MAX_JUMPS {
                    return Err(DecodeError::CompressionLoopExceeded);
                }
                if !jumped {
                    buffer.seek(pos + 2)?;
                }
                let low = buffer.get(pos + 1)?;
                assert(len & 0x3F == len % 64) by (bit_vector);
                pos = ((len & 0x3F) as usize) * 256 + (low as usize);
                jumped = true;
                jumps_performed += 1;
            } else {
                pos += 1;
                if len == 0 {
                    if !jumped {
                        buffer.seek(pos)?;
                    }
                    proof {
                        assert(labels + Seq::<Seq<u8>>::empty() =~= labels);
                    }
                    return Ok(domain_name);
                }
                domain_name.append(delimiter);
                let str_buffer = buffer.get_range(pos, len as usize)?;
                let label = lowercase(utf8_lossy(str_buffer).as_str());
                domain_name.append(label.as_str());
                delimiter = ".";
                proof {
                    reveal_strlit(".");
                    assert(delimiter@ =~= seq!['.']);
                    let rest = name_labels(bytes, pos + len, jumps_performed as int);
                    let grown = labels.push(str_buffer@);
                    match rest {
                        Ok(tail) => {
                            assert(labels + (seq![str_buffer@] + tail) =~= grown + tail);
                        },
                        Err(_) => {},
                    }
                    assert(grown.drop_last() =~= labels);
                    assert(domain_name@ =~= dotted(grown));
                    labels = grown;
                }
                pos += len as usize;
            }
        }
    }
}

} // verus!
