//! Ethernet type codes.
use vstd::prelude::*;
use vstd::string::StringSliceAdditionalSpecFns;

use crate::text::bytes_eq;

verus! {

/// Ethernet type: the protocol carried in a frame's payload.
#[derive(Clone, Copy, Debug, PartialEq, Eq, Hash, Structural)]
pub enum EthType {
    Ipv4,
    Arp,
    FrameRelayArp,
    Vlan,
    Ipv6,
    /// Any other value.
    Reserved(u16),
}

impl EthType {
    /// The value of a numeric code.
    pub open spec fn spec_from_raw(v: u16) -> EthType {
        if v == 0x0800 {
            EthType::Ipv4
        } else if v == 0x0806 {
            EthType::Arp
        } else if v == 0x0808 {
            EthType::FrameRelayArp
        } else if v == 0x8100 {
            EthType::Vlan
        } else if v == 0x86DD {
            EthType::Ipv6
        } else {
            EthType::Reserved(v)
        }
    }

    /// The numeric code of a value.
    pub open spec fn spec_raw(self) -> u16 {
        match self {
            EthType::Ipv4 => 0x0800,
            EthType::Arp => 0x0806,
            EthType::FrameRelayArp => 0x0808,
            EthType::Vlan => 0x8100,
            EthType::Ipv6 => 0x86DD,
            EthType::Reserved(v) => v,
        }
    }

    /// The value of the numeric code `v`; an unknown code is kept in `Reserved`.
    pub fn from_raw(v: u16) -> (r: EthType)
        ensures
            r == EthType::spec_from_raw(v),
    {
        if v == 0x0800 {
            EthType::Ipv4
        } else if v == 0x0806 {
            EthType::Arp
        } else if v == 0x0808 {
            EthType::FrameRelayArp
        } else if v == 0x8100 {
            EthType::Vlan
        } else if v == 0x86DD {
            EthType::Ipv6
        } else {
            EthType::Reserved(v)
        }
    }

    /// The numeric code of this value.
    pub fn raw(self) -> (r: u16)
        ensures
            r == self.spec_raw(),
    {
        match self {
            EthType::Ipv4 => 0x0800,
            EthType::Arp => 0x0806,
            EthType::FrameRelayArp => 0x0808,
            EthType::Vlan => 0x8100,
            EthType::Ipv6 => 0x86DD,
            EthType::Reserved(v) => v,
        }
    }

    /// The name of this value.
    pub open spec fn spec_name(self) -> Seq<char> {
        match self {
            EthType::Ipv4 => "Ipv4"@,
            EthType::Arp => "Arp"@,
            EthType::FrameRelayArp => "FrameRelayArp"@,
            EthType::Vlan => "Vlan"@,
            EthType::Ipv6 => "Ipv6"@,
            EthType::Reserved(_) => "Reserved"@,
        }
    }

    /// The name of this value.
    pub fn as_ref(&self) -> (r: &'static str)
        ensures
            r@ == self.spec_name(),
    {
        match self {
            EthType::Ipv4 => "Ipv4",
            EthType::Arp => "Arp",
            EthType::FrameRelayArp => "FrameRelayArp",
            EthType::Vlan => "Vlan",
            EthType::Ipv6 => "Ipv6",
            EthType::Reserved(_) => "Reserved",
        }
    }

    /// The value named by the UTF-8 bytes `b`, if any.
    pub open spec fn spec_parse(b: Seq<u8>) -> Option<EthType> {
        if b == "Ipv4".spec_bytes() {
            Some(EthType::Ipv4)
        } else if b == "Arp".spec_bytes() {
            Some(EthType::Arp)
        } else if b == "FrameRelayArp".spec_bytes() {
            Some(EthType::FrameRelayArp)
        } else if b == "Vlan".spec_bytes() {
            Some(EthType::Vlan)
        } else if b == "Ipv6".spec_bytes() {
            Some(EthType::Ipv6)
        } else if b == "Reserved".spec_bytes() {
            Some(EthType::Reserved(0))
        } else {
            None
        }
    }

    /// Parses a name of a value; `Reserved` parses to the code zero.
    pub fn from_str(s: &str) -> (r: Option<EthType>)
        ensures
            r == EthType::spec_parse(s.spec_bytes()),
    {
        let b = s.as_bytes();
        if bytes_eq(b, "Ipv4".as_bytes()) {
            Some(EthType::Ipv4)
        } else if bytes_eq(b, "Arp".as_bytes()) {
            Some(EthType::Arp)
        } else if bytes_eq(b, "FrameRelayArp".as_bytes()) {
            Some(EthType::FrameRelayArp)
        } else if bytes_eq(b, "Vlan".as_bytes()) {
            Some(EthType::Vlan)
        } else if bytes_eq(b, "Ipv6".as_bytes()) {
            Some(EthType::Ipv6)
        } else if bytes_eq(b, "Reserved".as_bytes()) {
            Some(EthType::Reserved(0))
        } else {
            None
        }
    }
}

impl From<u16> for EthType {
    fn from(v: u16) -> (r: EthType) {
        EthType::from_raw(v)
    }
}

impl vstd::std_specs::convert::FromSpecImpl<u16> for EthType {
    open spec fn obeys_from_spec() -> bool {
        true
    }

    open spec fn from_spec(v: u16) -> EthType {
        EthType::spec_from_raw(v)
    }
}

impl From<EthType> for u16 {
    fn from(v: EthType) -> (r: u16) {
        v.raw()
    }
}

impl vstd::std_specs::convert::FromSpecImpl<EthType> for u16 {
    open spec fn obeys_from_spec() -> bool {
        true
    }

    open spec fn from_spec(v: EthType) -> u16 {
        v.spec_raw()
    }
}

impl Default for EthType {
    fn default() -> (r: EthType)
        ensures
            r == EthType::Reserved(0xFFFF),
    {
        EthType::Reserved(0xFFFF)
    }
}

} // verus!
