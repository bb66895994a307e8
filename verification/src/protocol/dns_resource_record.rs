//! A resource record, as the answer, authority and additional sections hold it.

use crate::protocol::resource_class_enum::ResourceClass;
use crate::protocol::resource_type_enum::ResourceType;
use vstd::prelude::*;

verus! {

/// A decoded resource record. Its data is kept as text and not interpreted.
#[derive(Debug, Clone, PartialEq, Eq)]
pub struct DnsRecord {
    /// The domain name the record belongs to.
    pub name: String,
    /// The type of the record, which says what its data means.
    pub r_type: ResourceType,
    /// The class of the record's data.
    pub r_class: ResourceClass,
    /// Seconds the record may be cached; zero forbids caching.
    pub ttl: u32,
    /// Number of octets of data.
    pub rd_length: u16,
    /// The data octets, read as lossy UTF-8.
    pub r_data: String,
}

/// A resource record as a plain value.
pub struct DnsRecordView {
    pub name: Seq<char>,
    pub r_type: ResourceType,
    pub r_class: ResourceClass,
    pub ttl: u32,
    pub rd_length: u16,
    pub r_data: Seq<char>,
}

impl View for DnsRecord {
    type V = DnsRecordView;

    open spec fn view(&self) -> DnsRecordView {
        DnsRecordView {
            name: self.name@,
            r_type: self.r_type,
            r_class: self.r_class,
            ttl: self.ttl,
            rd_length: self.rd_length,
            r_data: self.r_data@,
        }
    }
}

impl DnsRecord {
    /// An Internet host-address record with an empty name and no data.
    pub fn new() -> (r: DnsRecord)
        ensures
            r@ == (DnsRecordView {
                name: Seq::empty(),
                r_type: ResourceType::A,
                r_class: ResourceClass::IN,
                ttl: 0,
                rd_length: 0,
                r_data: Seq::empty(),
            }),
    {
        DnsRecord {
            name: String::new(),
            r_type: ResourceType::A,
            r_class: ResourceClass::IN,
            ttl: 0,
            rd_length: 0,
            r_data: String::new(),
        }
    }
}

} // verus!
