//! The fixed twelve-octet header of a message.
//!
//! ```text
//!   0  1  2  3  4  5  6  7  8  9  0  1  2  3  4  5
//! +--+--+--+--+--+--+--+--+--+--+--+--+--+--+--+--+
//! |                      ID                       |
//! +--+--+--+--+--+--+--+--+--+--+--+--+--+--+--+--+
//! |QR|   Opcode  |AA|TC|RD|RA| Z|AD|CD|   RCODE   |
//! +--+--+--+--+--+--+--+--+--+--+--+--+--+--+--+--+
//! |                    QDCOUNT                    |
//! +--+--+--+--+--+--+--+--+--+--+--+--+--+--+--+--+
//! |                    ANCOUNT                    |
//! +--+--+--+--+--+--+--+--+--+--+--+--+--+--+--+--+
//! |                    NSCOUNT                    |
//! +--+--+--+--+--+--+--+--+--+--+--+--+--+--+--+--+
//! |                    ARCOUNT                    |
//! +--+--+--+--+--+--+--+--+--+--+--+--+--+--+--+--+
//! ```

use crate::protocol::opcode_enum::OpCode;
use crate::protocol::rcode_enum::RCode;
use vstd::prelude::*;

verus! {

/// A decoded header.
#[derive(Clone, Debug)]
pub struct DnsHeader {
    /// Identifier that matches replies to queries.
    pub id: u16,
    /// Whether the message is a response.
    pub response: bool,
    /// The kind of query.
    pub opcode: OpCode,
    /// Whether the responding server is an authority for the name asked.
    pub authoritative_answer: bool,
    /// Whether the message was cut short by the transport.
    pub truncated_message: bool,
    /// Whether the server is asked to pursue the query recursively.
    pub recursion_desired: bool,
    /// Whether the server offers recursive queries.
    pub recursion_available: bool,
    /// The reserved bit; it is read and not judged.
    pub z: bool,
    /// Whether the server may skip checking signatures.
    pub checking_disabled: bool,
    /// Whether the data was authenticated by the server.
    pub authed_data: bool,
    /// The outcome a response reports.
    pub r_code: RCode,
    /// Number of entries in the question section.
    pub questions: u16,
    /// Number of records in the answer section.
    pub answers: u16,
    /// Number of records in the authority section.
    pub authoritative_entries: u16,
    /// Number of records in the additional section.
    pub resource_entries: u16,
}

impl DnsHeader {
    /// The header of an empty standard query with identifier zero.
    pub open spec fn empty() -> DnsHeader {
        DnsHeader {
            id: 0,
            response: false,
            opcode: OpCode::Query,
            authoritative_answer: false,
            truncated_message: false,
            recursion_desired: false,
            recursion_available: false,
            z: false,
            checking_disabled: false,
            authed_data: false,
            r_code: RCode::NoError,
            questions: 0,
            answers: 0,
            authoritative_entries: 0,
            resource_entries: 0,
        }
    }

    /// A header with every flag clear and every count zero.
    pub fn new() -> (h: DnsHeader)
        ensures
            h == DnsHeader::empty(),
    {
        DnsHeader {
            id: 0,
            response: false,
            opcode: OpCode::Query,
            authoritative_answer: false,
            truncated_message: false,
            recursion_desired: false,
            recursion_available: false,
            z: false,
            checking_disabled: false,
            authed_data: false,
            r_code: RCode::NoError,
            questions: 0,
            answers: 0,
            authoritative_entries: 0,
            resource_entries: 0,
        }
    }
}

} // verus!
