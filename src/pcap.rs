//! Headers of pcap capture files.
//!
//! A capture file starts with a 4-byte magic number, whose byte order gives
//! the byte order of every header in the file, and a 20-byte global header.
//! Each record then starts with a 16-byte header.
use vstd::prelude::*;

use crate::field::{carrier_of, read_carrier};

verus! {

/// Length of the global header after the magic number.
pub const GLOBAL_HEADER_LENGTH: usize = 20;

/// Length of a record header.
pub const PACKET_HEADER_LENGTH: usize = 16;

/// The global header of a capture file.
#[derive(Debug, Clone, Copy, PartialEq, Eq)]
pub struct PcapHeader {
    pub magic_number: u32,
    pub version_major: u16,
    pub version_minor: u16,
    pub thiszone: i32,
    pub sigfigs: u32,
    pub snaplen: u32,
    pub network: u32,
}

/// The header of one record: its time stamp and its captured and original
/// lengths.
#[derive(Debug, Clone, Copy, PartialEq, Eq)]
pub struct PacketHeader {
    pub ts_sec: u32,
    pub ts_usec: u32,
    pub incl_len: u32,
    pub orig_len: u32,
}

/// The value of `n` bytes of `b` at `off` in the given byte order.
pub open spec fn num_at(b: Seq<u8>, off: int, n: int, big_endian: bool) -> nat {
    carrier_of(b.subrange(off, off + n), big_endian)
}

/// The state a capture file is decoded with: its global header and the byte
/// order of its headers.
#[derive(Debug, Clone, Copy, PartialEq, Eq)]
pub struct PcapReader {
    pub header: PcapHeader,
    pub big_endian: bool,
}

impl PcapReader {
    /// The byte order that the magic number announces: big-endian when its
    /// first byte is 0xa1, little-endian when its last byte is, and none
    /// otherwise.
    pub fn byte_order(magic: &[u8]) -> (r: Option<bool>)
        requires
            magic@.len() == 4,
        ensures
            r == if magic@[0] == 0xa1 {
                Some(true)
            } else if magic@[3] == 0xa1 {
                Some(false)
            } else {
                None::<bool>
            },
    {
        if magic[0] == 0xa1 {
            Some(true)
        } else if magic[3] == 0xa1 {
            Some(false)
        } else {
            None
        }
    }

    /// Decodes the magic number and the global header that follows it, if
    /// the magic number announces a byte order.
    pub fn new(magic: &[u8], rest: &[u8]) -> (r: Option<PcapReader>)
        requires
            magic@.len() == 4,
            rest@.len() == GLOBAL_HEADER_LENGTH,
        ensures
            r is Some <==> (magic@[0] == 0xa1 || magic@[3] == 0xa1),
            r matches Some(p) ==> {
                let be = p.big_endian;
                &&& be == (magic@[0] == 0xa1)
                &&& p.header.magic_number == num_at(magic@, 0, 4, be) as u32
                &&& p.header.version_major == num_at(rest@, 0, 2, be) as u16
                &&& p.header.version_minor == num_at(rest@, 2, 2, be) as u16
                &&& p.header.thiszone == num_at(rest@, 4, 4, be) as u32 as i32
                &&& p.header.sigfigs == num_at(rest@, 8, 4, be) as u32
                &&& p.header.snaplen == num_at(rest@, 12, 4, be) as u32
                &&& p.header.network == num_at(rest@, 16, 4, be) as u32
            },
    {
        let big_endian = match PcapReader::byte_order(magic) {
            Some(b) => b,
            None => return None,
        };
        let zone = #[verifier::truncate] (read_carrier(rest, 4, 4, big_endian) as u32);
        let header = PcapHeader {
            magic_number: #[verifier::truncate] (read_carrier(magic, 0, 4, big_endian) as u32),
            version_major: #[verifier::truncate] (read_carrier(rest, 0, 2, big_endian) as u16),
            version_minor: #[verifier::truncate] (read_carrier(rest, 2, 2, big_endian) as u16),
            thiszone: #[verifier::truncate] (zone as i32),
            sigfigs: #[verifier::truncate] (read_carrier(rest, 8, 4, big_endian) as u32),
            snaplen: #[verifier::truncate] (read_carrier(rest, 12, 4, big_endian) as u32),
            network: #[verifier::truncate] (read_carrier(rest, 16, 4, big_endian) as u32),
        };
        Some(PcapReader { header, big_endian })
    }

    /// Decodes a record header in the file's byte order.
    pub fn packet_header(&self, buf: &[u8]) -> (r: PacketHeader)
        requires
            buf@.len() == PACKET_HEADER_LENGTH,
        ensures
            r.ts_sec == num_at(buf@, 0, 4, self.big_endian) as u32,
            r.ts_usec == num_at(buf@, 4, 4, self.big_endian) as u32,
            r.incl_len == num_at(buf@, 8, 4, self.big_endian) as u32,
            r.orig_len == num_at(buf@, 12, 4, self.big_endian) as u32,
    {
        let be = self.big_endian;
        PacketHeader {
            ts_sec: #[verifier::truncate] (read_carrier(buf, 0, 4, be) as u32),
            ts_usec: #[verifier::truncate] (read_carrier(buf, 4, 4, be) as u32),
            incl_len: #[verifier::truncate] (read_carrier(buf, 8, 4, be) as u32),
            orig_len: #[verifier::truncate] (read_carrier(buf, 12, 4, be) as u32),
        }
    }
}

} // verus!
