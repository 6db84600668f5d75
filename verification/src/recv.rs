//! Inbound codecs: the UDP response datagram, the TCP response tags and the
//! usage-report entry grammar.

pub mod entry;
pub mod tcp;
pub mod udp;
