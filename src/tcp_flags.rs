//! TCP flags.
use vstd::prelude::*;

verus! {

/// The flag bits of a TCP header. Every bit pattern is kept, named or not.
#[derive(Clone, Copy, Debug, Default, PartialEq, Eq, Hash)]
pub struct TcpFlags {
    bits: u8,
}

/// Congestion Window Reduced.
pub const CWR_BITS: u8 = 0b1000_0000;
/// ECN-Echo.
pub const ECE_BITS: u8 = 0b0100_0000;
/// Urgent pointer field is significant.
pub const URG_BITS: u8 = 0b0010_0000;
/// Acknowledgment field is significant.
pub const ACK_BITS: u8 = 0b0001_0000;
/// Push function.
pub const PSH_BITS: u8 = 0b0000_1000;
/// Reset the connection.
pub const RST_BITS: u8 = 0b0000_0100;
/// Synchronize sequence numbers.
pub const SYN_BITS: u8 = 0b0000_0010;
/// No more data from sender.
pub const FIN_BITS: u8 = 0b0000_0001;

impl TcpFlags {
    /// Congestion Window Reduced.
    #[allow(non_snake_case)]
    pub fn CWR() -> (r: TcpFlags)
        ensures
            r.spec_bits() == CWR_BITS,
    {
        TcpFlags { bits: CWR_BITS }
    }
    /// ECN-Echo.
    #[allow(non_snake_case)]
    pub fn ECE() -> (r: TcpFlags)
        ensures
            r.spec_bits() == ECE_BITS,
    {
        TcpFlags { bits: ECE_BITS }
    }
    /// Urgent pointer field is significant.
    #[allow(non_snake_case)]
    pub fn URG() -> (r: TcpFlags)
        ensures
            r.spec_bits() == URG_BITS,
    {
        TcpFlags { bits: URG_BITS }
    }
    /// Acknowledgment field is significant.
    #[allow(non_snake_case)]
    pub fn ACK() -> (r: TcpFlags)
        ensures
            r.spec_bits() == ACK_BITS,
    {
        TcpFlags { bits: ACK_BITS }
    }
    /// Push function.
    #[allow(non_snake_case)]
    pub fn PSH() -> (r: TcpFlags)
        ensures
            r.spec_bits() == PSH_BITS,
    {
        TcpFlags { bits: PSH_BITS }
    }
    /// Reset the connection.
    #[allow(non_snake_case)]
    pub fn RST() -> (r: TcpFlags)
        ensures
            r.spec_bits() == RST_BITS,
    {
        TcpFlags { bits: RST_BITS }
    }
    /// Synchronize sequence numbers.
    #[allow(non_snake_case)]
    pub fn SYN() -> (r: TcpFlags)
        ensures
            r.spec_bits() == SYN_BITS,
    {
        TcpFlags { bits: SYN_BITS }
    }
    /// No more data from sender.
    #[allow(non_snake_case)]
    pub fn FIN() -> (r: TcpFlags)
        ensures
            r.spec_bits() == FIN_BITS,
    {
        TcpFlags { bits: FIN_BITS }
    }

    pub closed spec fn spec_bits(self) -> u8 {
        self.bits
    }

    /// The flags held by the bit pattern `b`.
    pub closed spec fn spec_from_bits(b: u8) -> TcpFlags {
        TcpFlags { bits: b }
    }

    /// The flags held by the bit pattern `b`, unknown bits included.
    pub fn from_bits_retain(b: u8) -> (r: TcpFlags)
        ensures
            r == TcpFlags::spec_from_bits(b),
            r.spec_bits() == b,
    {
        TcpFlags { bits: b }
    }

    /// The flags held by `b`, if every bit of it is a named flag (always).
    pub fn from_bits(b: u8) -> (r: Option<TcpFlags>)
        ensures
            r matches Some(f) && f.spec_bits() == b,
    {
        Some(TcpFlags { bits: b })
    }

    /// No flag.
    pub fn empty() -> (r: TcpFlags)
        ensures
            r == TcpFlags::spec_from_bits(0),
            r.spec_bits() == 0,
    {
        TcpFlags { bits: 0 }
    }

    /// The bit pattern.
    pub fn bits(&self) -> (r: u8)
        ensures
            r == self.spec_bits(),
    {
        self.bits
    }

    /// Whether every flag of `other` is set here.
    pub fn contains(&self, other: TcpFlags) -> (r: bool)
        ensures
            r == (self.spec_bits() & other.spec_bits() == other.spec_bits()),
    {
        self.bits & other.bits == other.bits
    }

    /// The flags set in either.
    pub fn union(self, other: TcpFlags) -> (r: TcpFlags)
        ensures
            r == TcpFlags::spec_from_bits(self.spec_bits() | other.spec_bits()),
            r.spec_bits() == self.spec_bits() | other.spec_bits(),
    {
        TcpFlags { bits: self.bits | other.bits }
    }
}

impl core::ops::BitOr for TcpFlags {
    type Output = TcpFlags;

    fn bitor(self, other: TcpFlags) -> (r: TcpFlags) {
        self.union(other)
    }
}

impl vstd::std_specs::ops::BitOrSpecImpl for TcpFlags {
    open spec fn obeys_bitor_spec() -> bool {
        true
    }

    open spec fn bitor_req(self, other: TcpFlags) -> bool {
        true
    }

    open spec fn bitor_spec(self, other: TcpFlags) -> TcpFlags {
        TcpFlags::spec_from_bits(self.spec_bits() | other.spec_bits())
    }
}

impl From<u8> for TcpFlags {
    fn from(b: u8) -> (r: TcpFlags) {
        TcpFlags::from_bits_retain(b)
    }
}

impl vstd::std_specs::convert::FromSpecImpl<u8> for TcpFlags {
    open spec fn obeys_from_spec() -> bool {
        true
    }

    open spec fn from_spec(b: u8) -> TcpFlags {
        TcpFlags::spec_from_bits(b)
    }
}

impl From<TcpFlags> for u8 {
    fn from(f: TcpFlags) -> (r: u8) {
        f.bits()
    }
}

impl vstd::std_specs::convert::FromSpecImpl<TcpFlags> for u8 {
    open spec fn obeys_from_spec() -> bool {
        true
    }

    open spec fn from_spec(f: TcpFlags) -> u8 {
        f.spec_bits()
    }
}

} // verus!
