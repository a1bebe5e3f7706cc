//! Typed, bit-precise views over network packet buffers: Ethernet, IPv4, TCP,
//! UDP and DNS, with builders that produce fully formed buffers, and the
//! headers of pcap capture files.
//!
//! Every view owns its buffer. Field accessors read and write fields in place
//! through the bit-field framework of [`field`]; next-layer accessors
//! (`Eth::ipv4`, `Ipv4::tcp`, `Ipv4::udp`) copy the payload into a view of
//! its own.
//!
//! Accessors of the variable part of a header (options, payload) require the
//! buffer to hold the length that the header-length field declares; a caller
//! that changes that field after construction must keep it so.
pub mod dns;
pub mod eth;
pub mod eth_type;
pub mod field;
pub mod ip_protocol;
pub mod ipv4;
pub mod mac_addr;
pub mod pcap;
pub mod tcp;
pub mod tcp_flags;
pub mod text;
pub mod udp;
