//! The parts of a message and the enumerations that their codes stand for.

pub mod dns_header;
pub mod dns_question;
pub mod dns_resource_record;
pub mod opcode_enum;
pub mod question_class_enum;
pub mod question_type_enum;
pub mod rcode_enum;
pub mod resource_class_enum;
pub mod resource_type_enum;
