//! The buffer, the model of what it holds, and the decoder.

pub mod dns_message;
pub mod dns_name;
pub mod dns_packet;
pub mod dns_packet_buffer;
