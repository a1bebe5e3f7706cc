//! IP protocol numbers.
use vstd::prelude::*;
use vstd::string::StringSliceAdditionalSpecFns;

use crate::text::bytes_eq;

verus! {

/// IP protocol number: the protocol carried in an IPv4 payload.
#[derive(Clone, Copy, Debug, PartialEq, Eq, Hash, Structural)]
pub enum IpProtocol {
    Icmp,
    Igmp,
    Tcp,
    Udp,
    Ipv6,
    Gre,
    Esp,
    Ah,
    Icmpv6,
    Sctp,
    /// Any other value.
    Reserved(u8),
}

impl IpProtocol {
    /// The value of a numeric code.
    pub open spec fn spec_from_raw(v: u8) -> IpProtocol {
        if v == 1 {
            IpProtocol::Icmp
        } else if v == 2 {
            IpProtocol::Igmp
        } else if v == 6 {
            IpProtocol::Tcp
        } else if v == 17 {
            IpProtocol::Udp
        } else if v == 41 {
            IpProtocol::Ipv6
        } else if v == 47 {
            IpProtocol::Gre
        } else if v == 50 {
            IpProtocol::Esp
        } else if v == 51 {
            IpProtocol::Ah
        } else if v == 58 {
            IpProtocol::Icmpv6
        } else if v == 132 {
            IpProtocol::Sctp
        } else {
            IpProtocol::Reserved(v)
        }
    }

    /// The numeric code of a value.
    pub open spec fn spec_raw(self) -> u8 {
        match self {
            IpProtocol::Icmp => 1,
            IpProtocol::Igmp => 2,
            IpProtocol::Tcp => 6,
            IpProtocol::Udp => 17,
            IpProtocol::Ipv6 => 41,
            IpProtocol::Gre => 47,
            IpProtocol::Esp => 50,
            IpProtocol::Ah => 51,
            IpProtocol::Icmpv6 => 58,
            IpProtocol::Sctp => 132,
            IpProtocol::Reserved(v) => v,
        }
    }

    /// The value of the numeric code `v`; an unknown code is kept in `Reserved`.
    pub fn from_raw(v: u8) -> (r: IpProtocol)
        ensures
            r == IpProtocol::spec_from_raw(v),
    {
        if v == 1 {
            IpProtocol::Icmp
        } else if v == 2 {
            IpProtocol::Igmp
        } else if v == 6 {
            IpProtocol::Tcp
        } else if v == 17 {
            IpProtocol::Udp
        } else if v == 41 {
            IpProtocol::Ipv6
        } else if v == 47 {
            IpProtocol::Gre
        } else if v == 50 {
            IpProtocol::Esp
        } else if v == 51 {
            IpProtocol::Ah
        } else if v == 58 {
            IpProtocol::Icmpv6
        } else if v == 132 {
            IpProtocol::Sctp
        } else {
            IpProtocol::Reserved(v)
        }
    }

    /// The numeric code of this value.
    pub fn raw(self) -> (r: u8)
        ensures
            r == self.spec_raw(),
    {
        match self {
            IpProtocol::Icmp => 1,
            IpProtocol::Igmp => 2,
            IpProtocol::Tcp => 6,
            IpProtocol::Udp => 17,
            IpProtocol::Ipv6 => 41,
            IpProtocol::Gre => 47,
            IpProtocol::Esp => 50,
            IpProtocol::Ah => 51,
            IpProtocol::Icmpv6 => 58,
            IpProtocol::Sctp => 132,
            IpProtocol::Reserved(v) => v,
        }
    }

    /// The name of this value.
    pub open spec fn spec_name(self) -> Seq<char> {
        match self {
            IpProtocol::Icmp => "Icmp"@,
            IpProtocol::Igmp => "Igmp"@,
            IpProtocol::Tcp => "Tcp"@,
            IpProtocol::Udp => "Udp"@,
            IpProtocol::Ipv6 => "Ipv6"@,
            IpProtocol::Gre => "Gre"@,
            IpProtocol::Esp => "Esp"@,
            IpProtocol::Ah => "Ah"@,
            IpProtocol::Icmpv6 => "Icmpv6"@,
            IpProtocol::Sctp => "Sctp"@,
            IpProtocol::Reserved(_) => "Reserved"@,
        }
    }

    /// The name of this value.
    pub fn as_ref(&self) -> (r: &'static str)
        ensures
            r@ == self.spec_name(),
    {
        match self {
            IpProtocol::Icmp => "Icmp",
            IpProtocol::Igmp => "Igmp",
            IpProtocol::Tcp => "Tcp",
            IpProtocol::Udp => "Udp",
            IpProtocol::Ipv6 => "Ipv6",
            IpProtocol::Gre => "Gre",
            IpProtocol::Esp => "Esp",
            IpProtocol::Ah => "Ah",
            IpProtocol::Icmpv6 => "Icmpv6",
            IpProtocol::Sctp => "Sctp",
            IpProtocol::Reserved(_) => "Reserved",
        }
    }

    /// The value named by the UTF-8 bytes `b`, if any.
    pub open spec fn spec_parse(b: Seq<u8>) -> Option<IpProtocol> {
        if b == "Icmp".spec_bytes() {
            Some(IpProtocol::Icmp)
        } else if b == "Igmp".spec_bytes() {
            Some(IpProtocol::Igmp)
        } else if b == "Tcp".spec_bytes() {
            Some(IpProtocol::Tcp)
        } else if b == "Udp".spec_bytes() {
            Some(IpProtocol::Udp)
        } else if b == "Ipv6".spec_bytes() {
            Some(IpProtocol::Ipv6)
        } else if b == "Gre".spec_bytes() {
            Some(IpProtocol::Gre)
        } else if b == "Esp".spec_bytes() {
            Some(IpProtocol::Esp)
        } else if b == "Ah".spec_bytes() {
            Some(IpProtocol::Ah)
        } else if b == "Icmpv6".spec_bytes() {
            Some(IpProtocol::Icmpv6)
        } else if b == "Sctp".spec_bytes() {
            Some(IpProtocol::Sctp)
        } else if b == "Reserved".spec_bytes() {
            Some(IpProtocol::Reserved(0))
        } else {
            None
        }
    }

    /// Parses a name of a value; `Reserved` parses to the code zero.
    pub fn from_str(s: &str) -> (r: Option<IpProtocol>)
        ensures
            r == IpProtocol::spec_parse(s.spec_bytes()),
    {
        let b = s.as_bytes();
        if bytes_eq(b, "Icmp".as_bytes()) {
            Some(IpProtocol::Icmp)
        } else if bytes_eq(b, "Igmp".as_bytes()) {
            Some(IpProtocol::Igmp)
        } else if bytes_eq(b, "Tcp".as_bytes()) {
            Some(IpProtocol::Tcp)
        } else if bytes_eq(b, "Udp".as_bytes()) {
            Some(IpProtocol::Udp)
        } else if bytes_eq(b, "Ipv6".as_bytes()) {
            Some(IpProtocol::Ipv6)
        } else if bytes_eq(b, "Gre".as_bytes()) {
            Some(IpProtocol::Gre)
        } else if bytes_eq(b, "Esp".as_bytes()) {
            Some(IpProtocol::Esp)
        } else if bytes_eq(b, "Ah".as_bytes()) {
            Some(IpProtocol::Ah)
        } else if bytes_eq(b, "Icmpv6".as_bytes()) {
            Some(IpProtocol::Icmpv6)
        } else if bytes_eq(b, "Sctp".as_bytes()) {
            Some(IpProtocol::Sctp)
        } else if bytes_eq(b, "Reserved".as_bytes()) {
            Some(IpProtocol::Reserved(0))
        } else {
            None
        }
    }
}

impl From<u8> for IpProtocol {
    fn from(v: u8) -> (r: IpProtocol) {
        IpProtocol::from_raw(v)
    }
}

impl vstd::std_specs::convert::FromSpecImpl<u8> for IpProtocol {
    open spec fn obeys_from_spec() -> bool {
        true
    }

    open spec fn from_spec(v: u8) -> IpProtocol {
        IpProtocol::spec_from_raw(v)
    }
}

impl From<IpProtocol> for u8 {
    fn from(v: IpProtocol) -> (r: u8) {
        v.raw()
    }
}

impl vstd::std_specs::convert::FromSpecImpl<IpProtocol> for u8 {
    open spec fn obeys_from_spec() -> bool {
        true
    }

    open spec fn from_spec(v: IpProtocol) -> u8 {
        v.spec_raw()
    }
}

impl Default for IpProtocol {
    fn default() -> (r: IpProtocol)
        ensures
            r == IpProtocol::Reserved(255),
    {
        IpProtocol::Reserved(255)
    }
}

} // verus!
