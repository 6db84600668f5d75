//! Outbound codecs: the UDP heartbeat datagram and the TCP configuration
//! stream.

pub mod tcp;
pub mod udp;
