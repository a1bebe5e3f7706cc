//! DNS resource record types.
use vstd::prelude::*;
use vstd::string::StringSliceAdditionalSpecFns;

use crate::text::bytes_eq;

verus! {

/// DNS resource record type.
#[derive(Clone, Copy, Debug, PartialEq, Eq, Hash, Structural)]
pub enum DnsRrType {
    A,
    NS,
    MD,
    MF,
    CNAME,
    SOA,
    MB,
    MG,
    MR,
    NULL,
    WKS,
    PTR,
    HINFO,
    MINFO,
    MX,
    TXT,
    RP,
    AFSDB,
    X25,
    ISDN,
    RT,
    NSAP,
    NSAPPTR,
    SIG,
    KEY,
    PX,
    GPOS,
    AAAA,
    LOC,
    NXT,
    EID,
    NIMLOC,
    SRV,
    ATMA,
    NAPTR,
    KX,
    CERT,
    A6,
    DNAME,
    SINK,
    OPT,
    APL,
    DS,
    SSHFP,
    IPSECKEY,
    RRSIG,
    NSEC,
    DNSKEY,
    DHCID,
    NSEC3,
    NSEC3PARAM,
    TLSA,
    SMIMEA,
    HIP,
    NINFO,
    RKEY,
    TALINK,
    CDS,
    CDNSKEY,
    OPENPGPKEY,
    CSYNC,
    ZONEMD,
    SVCB,
    HTTPS,
    SPF,
    UINFO,
    UID,
    GID,
    UNSPEC,
    NID,
    L32,
    L64,
    LP,
    EUI48,
    EUI64,
    TKEY,
    TSIG,
    IXFR,
    AXFR,
    MAILB,
    MAILA,
    ANY,
    URI,
    CAA,
    AVC,
    DOA,
    AMTRELAY,
    TA,
    DLV,
    /// Any other value.
    Reserved(u16),
}

impl DnsRrType {
    /// The value of a numeric code.
    pub open spec fn spec_from_raw(v: u16) -> DnsRrType {
        if v == 1 {
            DnsRrType::A
        } else if v == 2 {
            DnsRrType::NS
        } else if v == 3 {
            DnsRrType::MD
        } else if v == 4 {
            DnsRrType::MF
        } else if v == 5 {
            DnsRrType::CNAME
        } else if v == 6 {
            DnsRrType::SOA
        } else if v == 7 {
            DnsRrType::MB
        } else if v == 8 {
            DnsRrType::MG
        } else if v == 9 {
            DnsRrType::MR
        } else if v == 10 {
            DnsRrType::NULL
        } else if v == 11 {
            DnsRrType::WKS
        } else if v == 12 {
            DnsRrType::PTR
        } else if v == 13 {
            DnsRrType::HINFO
        } else if v == 14 {
            DnsRrType::MINFO
        } else if v == 15 {
            DnsRrType::MX
        } else if v == 16 {
            DnsRrType::TXT
        } else if v == 17 {
            DnsRrType::RP
        } else if v == 18 {
            DnsRrType::AFSDB
        } else if v == 19 {
            DnsRrType::X25
        } else if v == 20 {
            DnsRrType::ISDN
        } else if v == 21 {
            DnsRrType::RT
        } else if v == 22 {
            DnsRrType::NSAP
        } else if v == 23 {
            DnsRrType::NSAPPTR
        } else if v == 24 {
            DnsRrType::SIG
        } else if v == 25 {
            DnsRrType::KEY
        } else if v == 26 {
            DnsRrType::PX
        } else if v == 27 {
            DnsRrType::GPOS
        } else if v == 28 {
            DnsRrType::AAAA
        } else if v == 29 {
            DnsRrType::LOC
        } else if v == 30 {
            DnsRrType::NXT
        } else if v == 31 {
            DnsRrType::EID
        } else if v == 32 {
            DnsRrType::NIMLOC
        } else if v == 33 {
            DnsRrType::SRV
        } else if v == 34 {
            DnsRrType::ATMA
        } else if v == 35 {
            DnsRrType::NAPTR
        } else if v == 36 {
            DnsRrType::KX
        } else if v == 37 {
            DnsRrType::CERT
        } else if v == 38 {
            DnsRrType::A6
        } else if v == 39 {
            DnsRrType::DNAME
        } else if v == 40 {
            DnsRrType::SINK
        } else if v == 41 {
            DnsRrType::OPT
        } else if v == 42 {
            DnsRrType::APL
        } else if v == 43 {
            DnsRrType::DS
        } else if v == 44 {
            DnsRrType::SSHFP
        } else if v == 45 {
            DnsRrType::IPSECKEY
        } else if v == 46 {
            DnsRrType::RRSIG
        } else if v == 47 {
            DnsRrType::NSEC
        } else if v == 48 {
            DnsRrType::DNSKEY
        } else if v == 49 {
            DnsRrType::DHCID
        } else if v == 50 {
            DnsRrType::NSEC3
        } else if v == 51 {
            DnsRrType::NSEC3PARAM
        } else if v == 52 {
            DnsRrType::TLSA
        } else if v == 53 {
            DnsRrType::SMIMEA
        } else if v == 55 {
            DnsRrType::HIP
        } else if v == 56 {
            DnsRrType::NINFO
        } else if v == 57 {
            DnsRrType::RKEY
        } else if v == 58 {
            DnsRrType::TALINK
        } else if v == 59 {
            DnsRrType::CDS
        } else if v == 60 {
            DnsRrType::CDNSKEY
        } else if v == 61 {
            DnsRrType::OPENPGPKEY
        } else if v == 62 {
            DnsRrType::CSYNC
        } else if v == 63 {
            DnsRrType::ZONEMD
        } else if v == 64 {
            DnsRrType::SVCB
        } else if v == 65 {
            DnsRrType::HTTPS
        } else if v == 99 {
            DnsRrType::SPF
        } else if v == 100 {
            DnsRrType::UINFO
        } else if v == 101 {
            DnsRrType::UID
        } else if v == 102 {
            DnsRrType::GID
        } else if v == 103 {
            DnsRrType::UNSPEC
        } else if v == 104 {
            DnsRrType::NID
        } else if v == 105 {
            DnsRrType::L32
        } else if v == 106 {
            DnsRrType::L64
        } else if v == 107 {
            DnsRrType::LP
        } else if v == 108 {
            DnsRrType::EUI48
        } else if v == 109 {
            DnsRrType::EUI64
        } else if v == 249 {
            DnsRrType::TKEY
        } else if v == 250 {
            DnsRrType::TSIG
        } else if v == 251 {
            DnsRrType::IXFR
        } else if v == 252 {
            DnsRrType::AXFR
        } else if v == 253 {
            DnsRrType::MAILB
        } else if v == 254 {
            DnsRrType::MAILA
        } else if v == 255 {
            DnsRrType::ANY
        } else if v == 256 {
            DnsRrType::URI
        } else if v == 257 {
            DnsRrType::CAA
        } else if v == 258 {
            DnsRrType::AVC
        } else if v == 259 {
            DnsRrType::DOA
        } else if v == 260 {
            DnsRrType::AMTRELAY
        } else if v == 32768 {
            DnsRrType::TA
        } else if v == 32769 {
            DnsRrType::DLV
        } else {
            DnsRrType::Reserved(v)
        }
    }

    /// The numeric code of a value.
    pub open spec fn spec_raw(self) -> u16 {
        match self {
            DnsRrType::A => 1,
            DnsRrType::NS => 2,
            DnsRrType::MD => 3,
            DnsRrType::MF => 4,
            DnsRrType::CNAME => 5,
            DnsRrType::SOA => 6,
            DnsRrType::MB => 7,
            DnsRrType::MG => 8,
            DnsRrType::MR => 9,
            DnsRrType::NULL => 10,
            DnsRrType::WKS => 11,
            DnsRrType::PTR => 12,
            DnsRrType::HINFO => 13,
            DnsRrType::MINFO => 14,
            DnsRrType::MX => 15,
            DnsRrType::TXT => 16,
            DnsRrType::RP => 17,
            DnsRrType::AFSDB => 18,
            DnsRrType::X25 => 19,
            DnsRrType::ISDN => 20,
            DnsRrType::RT => 21,
            DnsRrType::NSAP => 22,
            DnsRrType::NSAPPTR => 23,
            DnsRrType::SIG => 24,
            DnsRrType::KEY => 25,
            DnsRrType::PX => 26,
            DnsRrType::GPOS => 27,
            DnsRrType::AAAA => 28,
            DnsRrType::LOC => 29,
            DnsRrType::NXT => 30,
            DnsRrType::EID => 31,
            DnsRrType::NIMLOC => 32,
            DnsRrType::SRV => 33,
            DnsRrType::ATMA => 34,
            DnsRrType::NAPTR => 35,
            DnsRrType::KX => 36,
            DnsRrType::CERT => 37,
            DnsRrType::A6 => 38,
            DnsRrType::DNAME => 39,
            DnsRrType::SINK => 40,
            DnsRrType::OPT => 41,
            DnsRrType::APL => 42,
            DnsRrType::DS => 43,
            DnsRrType::SSHFP => 44,
            DnsRrType::IPSECKEY => 45,
            DnsRrType::RRSIG => 46,
            DnsRrType::NSEC => 47,
            DnsRrType::DNSKEY => 48,
            DnsRrType::DHCID => 49,
            DnsRrType::NSEC3 => 50,
            DnsRrType::NSEC3PARAM => 51,
            DnsRrType::TLSA => 52,
            DnsRrType::SMIMEA => 53,
            DnsRrType::HIP => 55,
            DnsRrType::NINFO => 56,
            DnsRrType::RKEY => 57,
            DnsRrType::TALINK => 58,
            DnsRrType::CDS => 59,
            DnsRrType::CDNSKEY => 60,
            DnsRrType::OPENPGPKEY => 61,
            DnsRrType::CSYNC => 62,
            DnsRrType::ZONEMD => 63,
            DnsRrType::SVCB => 64,
            DnsRrType::HTTPS => 65,
            DnsRrType::SPF => 99,
            DnsRrType::UINFO => 100,
            DnsRrType::UID => 101,
            DnsRrType::GID => 102,
            DnsRrType::UNSPEC => 103,
            DnsRrType::NID => 104,
            DnsRrType::L32 => 105,
            DnsRrType::L64 => 106,
            DnsRrType::LP => 107,
            DnsRrType::EUI48 => 108,
            DnsRrType::EUI64 => 109,
            DnsRrType::TKEY => 249,
            DnsRrType::TSIG => 250,
            DnsRrType::IXFR => 251,
            DnsRrType::AXFR => 252,
            DnsRrType::MAILB => 253,
            DnsRrType::MAILA => 254,
            DnsRrType::ANY => 255,
            DnsRrType::URI => 256,
            DnsRrType::CAA => 257,
            DnsRrType::AVC => 258,
            DnsRrType::DOA => 259,
            DnsRrType::AMTRELAY => 260,
            DnsRrType::TA => 32768,
            DnsRrType::DLV => 32769,
            DnsRrType::Reserved(v) => v,
        }
    }

    /// The value of the numeric code `v`; an unknown code is kept in `Reserved`.
    pub fn from_raw(v: u16) -> (r: DnsRrType)
        ensures
            r == DnsRrType::spec_from_raw(v),
    {
        if v == 1 {
            DnsRrType::A
        } else if v == 2 {
            DnsRrType::NS
        } else if v == 3 {
            DnsRrType::MD
        } else if v == 4 {
            DnsRrType::MF
        } else if v == 5 {
            DnsRrType::CNAME
        } else if v == 6 {
            DnsRrType::SOA
        } else if v == 7 {
            DnsRrType::MB
        } else if v == 8 {
            DnsRrType::MG
        } else if v == 9 {
            DnsRrType::MR
        } else if v == 10 {
            DnsRrType::NULL
        } else if v == 11 {
            DnsRrType::WKS
        } else if v == 12 {
            DnsRrType::PTR
        } else if v == 13 {
            DnsRrType::HINFO
        } else if v == 14 {
            DnsRrType::MINFO
        } else if v == 15 {
            DnsRrType::MX
        } else if v == 16 {
            DnsRrType::TXT
        } else if v == 17 {
            DnsRrType::RP
        } else if v == 18 {
            DnsRrType::AFSDB
        } else if v == 19 {
            DnsRrType::X25
        } else if v == 20 {
            DnsRrType::ISDN
        } else if v == 21 {
            DnsRrType::RT
        } else if v == 22 {
            DnsRrType::NSAP
        } else if v == 23 {
            DnsRrType::NSAPPTR
        } else if v == 24 {
            DnsRrType::SIG
        } else if v == 25 {
            DnsRrType::KEY
        } else if v == 26 {
            DnsRrType::PX
        } else if v == 27 {
            DnsRrType::GPOS
        } else if v == 28 {
            DnsRrType::AAAA
        } else if v == 29 {
            DnsRrType::LOC
        } else if v == 30 {
            DnsRrType::NXT
        } else if v == 31 {
            DnsRrType::EID
        } else if v == 32 {
            DnsRrType::NIMLOC
        } else if v == 33 {
            DnsRrType::SRV
        } else if v == 34 {
            DnsRrType::ATMA
        } else if v == 35 {
            DnsRrType::NAPTR
        } else if v == 36 {
            DnsRrType::KX
        } else if v == 37 {
            DnsRrType::CERT
        } else if v == 38 {
            DnsRrType::A6
        } else if v == 39 {
            DnsRrType::DNAME
        } else if v == 40 {
            DnsRrType::SINK
        } else if v == 41 {
            DnsRrType::OPT
        } else if v == 42 {
            DnsRrType::APL
        } else if v == 43 {
            DnsRrType::DS
        } else if v == 44 {
            DnsRrType::SSHFP
        } else if v == 45 {
            DnsRrType::IPSECKEY
        } else if v == 46 {
            DnsRrType::RRSIG
        } else if v == 47 {
            DnsRrType::NSEC
        } else if v == 48 {
            DnsRrType::DNSKEY
        } else if v == 49 {
            DnsRrType::DHCID
        } else if v == 50 {
            DnsRrType::NSEC3
        } else if v == 51 {
            DnsRrType::NSEC3PARAM
        } else if v == 52 {
            DnsRrType::TLSA
        } else if v == 53 {
            DnsRrType::SMIMEA
        } else if v == 55 {
            DnsRrType::HIP
        } else if v == 56 {
            DnsRrType::NINFO
        } else if v == 57 {
            DnsRrType::RKEY
        } else if v == 58 {
            DnsRrType::TALINK
        } else if v == 59 {
            DnsRrType::CDS
        } else if v == 60 {
            DnsRrType::CDNSKEY
        } else if v == 61 {
            DnsRrType::OPENPGPKEY
        } else if v == 62 {
            DnsRrType::CSYNC
        } else if v == 63 {
            DnsRrType::ZONEMD
        } else if v == 64 {
            DnsRrType::SVCB
        } else if v == 65 {
            DnsRrType::HTTPS
        } else if v == 99 {
            DnsRrType::SPF
        } else if v == 100 {
            DnsRrType::UINFO
        } else if v == 101 {
            DnsRrType::UID
        } else if v == 102 {
            DnsRrType::GID
        } else if v == 103 {
            DnsRrType::UNSPEC
        } else if v == 104 {
            DnsRrType::NID
        } else if v == 105 {
            DnsRrType::L32
        } else if v == 106 {
            DnsRrType::L64
        } else if v == 107 {
            DnsRrType::LP
        } else if v == 108 {
            DnsRrType::EUI48
        } else if v == 109 {
            DnsRrType::EUI64
        } else if v == 249 {
            DnsRrType::TKEY
        } else if v == 250 {
            DnsRrType::TSIG
        } else if v == 251 {
            DnsRrType::IXFR
        } else if v == 252 {
            DnsRrType::AXFR
        } else if v == 253 {
            DnsRrType::MAILB
        } else if v == 254 {
            DnsRrType::MAILA
        } else if v == 255 {
            DnsRrType::ANY
        } else if v == 256 {
            DnsRrType::URI
        } else if v == 257 {
            DnsRrType::CAA
        } else if v == 258 {
            DnsRrType::AVC
        } else if v == 259 {
            DnsRrType::DOA
        } else if v == 260 {
            DnsRrType::AMTRELAY
        } else if v == 32768 {
            DnsRrType::TA
        } else if v == 32769 {
            DnsRrType::DLV
        } else {
            DnsRrType::Reserved(v)
        }
    }

    /// The numeric code of this value.
    pub fn raw(self) -> (r: u16)
        ensures
            r == self.spec_raw(),
    {
        match self {
            DnsRrType::A => 1,
            DnsRrType::NS => 2,
            DnsRrType::MD => 3,
            DnsRrType::MF => 4,
            DnsRrType::CNAME => 5,
            DnsRrType::SOA => 6,
            DnsRrType::MB => 7,
            DnsRrType::MG => 8,
            DnsRrType::MR => 9,
            DnsRrType::NULL => 10,
            DnsRrType::WKS => 11,
            DnsRrType::PTR => 12,
            DnsRrType::HINFO => 13,
            DnsRrType::MINFO => 14,
            DnsRrType::MX => 15,
            DnsRrType::TXT => 16,
            DnsRrType::RP => 17,
            DnsRrType::AFSDB => 18,
            DnsRrType::X25 => 19,
            DnsRrType::ISDN => 20,
            DnsRrType::RT => 21,
            DnsRrType::NSAP => 22,
            DnsRrType::NSAPPTR => 23,
            DnsRrType::SIG => 24,
            DnsRrType::KEY => 25,
            DnsRrType::PX => 26,
            DnsRrType::GPOS => 27,
            DnsRrType::AAAA => 28,
            DnsRrType::LOC => 29,
            DnsRrType::NXT => 30,
            DnsRrType::EID => 31,
            DnsRrType::NIMLOC => 32,
            DnsRrType::SRV => 33,
            DnsRrType::ATMA => 34,
            DnsRrType::NAPTR => 35,
            DnsRrType::KX => 36,
            DnsRrType::CERT => 37,
            DnsRrType::A6 => 38,
            DnsRrType::DNAME => 39,
            DnsRrType::SINK => 40,
            DnsRrType::OPT => 41,
            DnsRrType::APL => 42,
            DnsRrType::DS => 43,
            DnsRrType::SSHFP => 44,
            DnsRrType::IPSECKEY => 45,
            DnsRrType::RRSIG => 46,
            DnsRrType::NSEC => 47,
            DnsRrType::DNSKEY => 48,
            DnsRrType::DHCID => 49,
            DnsRrType::NSEC3 => 50,
            DnsRrType::NSEC3PARAM => 51,
            DnsRrType::TLSA => 52,
            DnsRrType::SMIMEA => 53,
            DnsRrType::HIP => 55,
            DnsRrType::NINFO => 56,
            DnsRrType::RKEY => 57,
            DnsRrType::TALINK => 58,
            DnsRrType::CDS => 59,
            DnsRrType::CDNSKEY => 60,
            DnsRrType::OPENPGPKEY => 61,
            DnsRrType::CSYNC => 62,
            DnsRrType::ZONEMD => 63,
            DnsRrType::SVCB => 64,
            DnsRrType::HTTPS => 65,
            DnsRrType::SPF => 99,
            DnsRrType::UINFO => 100,
            DnsRrType::UID => 101,
            DnsRrType::GID => 102,
            DnsRrType::UNSPEC => 103,
            DnsRrType::NID => 104,
            DnsRrType::L32 => 105,
            DnsRrType::L64 => 106,
            DnsRrType::LP => 107,
            DnsRrType::EUI48 => 108,
            DnsRrType::EUI64 => 109,
            DnsRrType::TKEY => 249,
            DnsRrType::TSIG => 250,
            DnsRrType::IXFR => 251,
            DnsRrType::AXFR => 252,
            DnsRrType::MAILB => 253,
            DnsRrType::MAILA => 254,
            DnsRrType::ANY => 255,
            DnsRrType::URI => 256,
            DnsRrType::CAA => 257,
            DnsRrType::AVC => 258,
            DnsRrType::DOA => 259,
            DnsRrType::AMTRELAY => 260,
            DnsRrType::TA => 32768,
            DnsRrType::DLV => 32769,
            DnsRrType::Reserved(v) => v,
        }
    }

    /// The name of this value.
    pub open spec fn spec_name(self) -> Seq<char> {
        match self {
            DnsRrType::A => "A"@,
            DnsRrType::NS => "NS"@,
            DnsRrType::MD => "MD"@,
            DnsRrType::MF => "MF"@,
            DnsRrType::CNAME => "CNAME"@,
            DnsRrType::SOA => "SOA"@,
            DnsRrType::MB => "MB"@,
            DnsRrType::MG => "MG"@,
            DnsRrType::MR => "MR"@,
            DnsRrType::NULL => "NULL"@,
            DnsRrType::WKS => "WKS"@,
            DnsRrType::PTR => "PTR"@,
            DnsRrType::HINFO => "HINFO"@,
            DnsRrType::MINFO => "MINFO"@,
            DnsRrType::MX => "MX"@,
            DnsRrType::TXT => "TXT"@,
            DnsRrType::RP => "RP"@,
            DnsRrType::AFSDB => "AFSDB"@,
            DnsRrType::X25 => "X25"@,
            DnsRrType::ISDN => "ISDN"@,
            DnsRrType::RT => "RT"@,
            DnsRrType::NSAP => "NSAP"@,
            DnsRrType::NSAPPTR => "NSAPPTR"@,
            DnsRrType::SIG => "SIG"@,
            DnsRrType::KEY => "KEY"@,
            DnsRrType::PX => "PX"@,
            DnsRrType::GPOS => "GPOS"@,
            DnsRrType::AAAA => "AAAA"@,
            DnsRrType::LOC => "LOC"@,
            DnsRrType::NXT => "NXT"@,
            DnsRrType::EID => "EID"@,
            DnsRrType::NIMLOC => "NIMLOC"@,
            DnsRrType::SRV => "SRV"@,
            DnsRrType::ATMA => "ATMA"@,
            DnsRrType::NAPTR => "NAPTR"@,
            DnsRrType::KX => "KX"@,
            DnsRrType::CERT => "CERT"@,
            DnsRrType::A6 => "A6"@,
            DnsRrType::DNAME => "DNAME"@,
            DnsRrType::SINK => "SINK"@,
            DnsRrType::OPT => "OPT"@,
            DnsRrType::APL => "APL"@,
            DnsRrType::DS => "DS"@,
            DnsRrType::SSHFP => "SSHFP"@,
            DnsRrType::IPSECKEY => "IPSECKEY"@,
            DnsRrType::RRSIG => "RRSIG"@,
            DnsRrType::NSEC => "NSEC"@,
            DnsRrType::DNSKEY => "DNSKEY"@,
            DnsRrType::DHCID => "DHCID"@,
            DnsRrType::NSEC3 => "NSEC3"@,
            DnsRrType::NSEC3PARAM => "NSEC3PARAM"@,
            DnsRrType::TLSA => "TLSA"@,
            DnsRrType::SMIMEA => "SMIMEA"@,
            DnsRrType::HIP => "HIP"@,
            DnsRrType::NINFO => "NINFO"@,
            DnsRrType::RKEY => "RKEY"@,
            DnsRrType::TALINK => "TALINK"@,
            DnsRrType::CDS => "CDS"@,
            DnsRrType::CDNSKEY => "CDNSKEY"@,
            DnsRrType::OPENPGPKEY => "OPENPGPKEY"@,
            DnsRrType::CSYNC => "CSYNC"@,
            DnsRrType::ZONEMD => "ZONEMD"@,
            DnsRrType::SVCB => "SVCB"@,
            DnsRrType::HTTPS => "HTTPS"@,
            DnsRrType::SPF => "SPF"@,
            DnsRrType::UINFO => "UINFO"@,
            DnsRrType::UID => "UID"@,
            DnsRrType::GID => "GID"@,
            DnsRrType::UNSPEC => "UNSPEC"@,
            DnsRrType::NID => "NID"@,
            DnsRrType::L32 => "L32"@,
            DnsRrType::L64 => "L64"@,
            DnsRrType::LP => "LP"@,
            DnsRrType::EUI48 => "EUI48"@,
            DnsRrType::EUI64 => "EUI64"@,
            DnsRrType::TKEY => "TKEY"@,
            DnsRrType::TSIG => "TSIG"@,
            DnsRrType::IXFR => "IXFR"@,
            DnsRrType::AXFR => "AXFR"@,
            DnsRrType::MAILB => "MAILB"@,
            DnsRrType::MAILA => "MAILA"@,
            DnsRrType::ANY => "ANY"@,
            DnsRrType::URI => "URI"@,
            DnsRrType::CAA => "CAA"@,
            DnsRrType::AVC => "AVC"@,
            DnsRrType::DOA => "DOA"@,
            DnsRrType::AMTRELAY => "AMTRELAY"@,
            DnsRrType::TA => "TA"@,
            DnsRrType::DLV => "DLV"@,
            DnsRrType::Reserved(_) => "Reserved"@,
        }
    }

    /// The name of this value.
    pub fn as_ref(&self) -> (r: &'static str)
        ensures
            r@ == self.spec_name(),
    {
        match self {
            DnsRrType::A => "A",
            DnsRrType::NS => "NS",
            DnsRrType::MD => "MD",
            DnsRrType::MF => "MF",
            DnsRrType::CNAME => "CNAME",
            DnsRrType::SOA => "SOA",
            DnsRrType::MB => "MB",
            DnsRrType::MG => "MG",
            DnsRrType::MR => "MR",
            DnsRrType::NULL => "NULL",
            DnsRrType::WKS => "WKS",
            DnsRrType::PTR => "PTR",
            DnsRrType::HINFO => "HINFO",
            DnsRrType::MINFO => "MINFO",
            DnsRrType::MX => "MX",
            DnsRrType::TXT => "TXT",
            DnsRrType::RP => "RP",
            DnsRrType::AFSDB => "AFSDB",
            DnsRrType::X25 => "X25",
            DnsRrType::ISDN => "ISDN",
            DnsRrType::RT => "RT",
            DnsRrType::NSAP => "NSAP",
            DnsRrType::NSAPPTR => "NSAPPTR",
            DnsRrType::SIG => "SIG",
            DnsRrType::KEY => "KEY",
            DnsRrType::PX => "PX",
            DnsRrType::GPOS => "GPOS",
            DnsRrType::AAAA => "AAAA",
            DnsRrType::LOC => "LOC",
            DnsRrType::NXT => "NXT",
            DnsRrType::EID => "EID",
            DnsRrType::NIMLOC => "NIMLOC",
            DnsRrType::SRV => "SRV",
            DnsRrType::ATMA => "ATMA",
            DnsRrType::NAPTR => "NAPTR",
            DnsRrType::KX => "KX",
            DnsRrType::CERT => "CERT",
            DnsRrType::A6 => "A6",
            DnsRrType::DNAME => "DNAME",
            DnsRrType::SINK => "SINK",
            DnsRrType::OPT => "OPT",
            DnsRrType::APL => "APL",
            DnsRrType::DS => "DS",
            DnsRrType::SSHFP => "SSHFP",
            DnsRrType::IPSECKEY => "IPSECKEY",
            DnsRrType::RRSIG => "RRSIG",
            DnsRrType::NSEC => "NSEC",
            DnsRrType::DNSKEY => "DNSKEY",
            DnsRrType::DHCID => "DHCID",
            DnsRrType::NSEC3 => "NSEC3",
            DnsRrType::NSEC3PARAM => "NSEC3PARAM",
            DnsRrType::TLSA => "TLSA",
            DnsRrType::SMIMEA => "SMIMEA",
            DnsRrType::HIP => "HIP",
            DnsRrType::NINFO => "NINFO",
            DnsRrType::RKEY => "RKEY",
            DnsRrType::TALINK => "TALINK",
            DnsRrType::CDS => "CDS",
            DnsRrType::CDNSKEY => "CDNSKEY",
            DnsRrType::OPENPGPKEY => "OPENPGPKEY",
            DnsRrType::CSYNC => "CSYNC",
            DnsRrType::ZONEMD => "ZONEMD",
            DnsRrType::SVCB => "SVCB",
            DnsRrType::HTTPS => "HTTPS",
            DnsRrType::SPF => "SPF",
            DnsRrType::UINFO => "UINFO",
            DnsRrType::UID => "UID",
            DnsRrType::GID => "GID",
            DnsRrType::UNSPEC => "UNSPEC",
            DnsRrType::NID => "NID",
            DnsRrType::L32 => "L32",
            DnsRrType::L64 => "L64",
            DnsRrType::LP => "LP",
            DnsRrType::EUI48 => "EUI48",
            DnsRrType::EUI64 => "EUI64",
            DnsRrType::TKEY => "TKEY",
            DnsRrType::TSIG => "TSIG",
            DnsRrType::IXFR => "IXFR",
            DnsRrType::AXFR => "AXFR",
            DnsRrType::MAILB => "MAILB",
            DnsRrType::MAILA => "MAILA",
            DnsRrType::ANY => "ANY",
            DnsRrType::URI => "URI",
            DnsRrType::CAA => "CAA",
            DnsRrType::AVC => "AVC",
            DnsRrType::DOA => "DOA",
            DnsRrType::AMTRELAY => "AMTRELAY",
            DnsRrType::TA => "TA",
            DnsRrType::DLV => "DLV",
            DnsRrType::Reserved(_) => "Reserved",
        }
    }

    /// The value named by the UTF-8 bytes `b`, if any.
    pub open spec fn spec_parse(b: Seq<u8>) -> Option<DnsRrType> {
        if b == "A".spec_bytes() {
            Some(DnsRrType::A)
        } else if b == "NS".spec_bytes() {
            Some(DnsRrType::NS)
        } else if b == "MD".spec_bytes() {
            Some(DnsRrType::MD)
        } else if b == "MF".spec_bytes() {
            Some(DnsRrType::MF)
        } else if b == "CNAME".spec_bytes() {
            Some(DnsRrType::CNAME)
        } else if b == "SOA".spec_bytes() {
            Some(DnsRrType::SOA)
        } else if b == "MB".spec_bytes() {
            Some(DnsRrType::MB)
        } else if b == "MG".spec_bytes() {
            Some(DnsRrType::MG)
        } else if b == "MR".spec_bytes() {
            Some(DnsRrType::MR)
        } else if b == "NULL".spec_bytes() {
            Some(DnsRrType::NULL)
        } else if b == "WKS".spec_bytes() {
            Some(DnsRrType::WKS)
        } else if b == "PTR".spec_bytes() {
            Some(DnsRrType::PTR)
        } else if b == "HINFO".spec_bytes() {
            Some(DnsRrType::HINFO)
        } else if b == "MINFO".spec_bytes() {
            Some(DnsRrType::MINFO)
        } else if b == "MX".spec_bytes() {
            Some(DnsRrType::MX)
        } else if b == "TXT".spec_bytes() {
            Some(DnsRrType::TXT)
        } else if b == "RP".spec_bytes() {
            Some(DnsRrType::RP)
        } else if b == "AFSDB".spec_bytes() {
            Some(DnsRrType::AFSDB)
        } else if b == "X25".spec_bytes() {
            Some(DnsRrType::X25)
        } else if b == "ISDN".spec_bytes() {
            Some(DnsRrType::ISDN)
        } else if b == "RT".spec_bytes() {
            Some(DnsRrType::RT)
        } else if b == "NSAP".spec_bytes() {
            Some(DnsRrType::NSAP)
        } else if b == "NSAPPTR".spec_bytes() {
            Some(DnsRrType::NSAPPTR)
        } else if b == "SIG".spec_bytes() {
            Some(DnsRrType::SIG)
        } else if b == "KEY".spec_bytes() {
            Some(DnsRrType::KEY)
        } else if b == "PX".spec_bytes() {
            Some(DnsRrType::PX)
        } else if b == "GPOS".spec_bytes() {
            Some(DnsRrType::GPOS)
        } else if b == "AAAA".spec_bytes() {
            Some(DnsRrType::AAAA)
        } else if b == "LOC".spec_bytes() {
            Some(DnsRrType::LOC)
        } else if b == "NXT".spec_bytes() {
            Some(DnsRrType::NXT)
        } else if b == "EID".spec_bytes() {
            Some(DnsRrType::EID)
        } else if b == "NIMLOC".spec_bytes() {
            Some(DnsRrType::NIMLOC)
        } else if b == "SRV".spec_bytes() {
            Some(DnsRrType::SRV)
        } else if b == "ATMA".spec_bytes() {
            Some(DnsRrType::ATMA)
        } else if b == "NAPTR".spec_bytes() {
            Some(DnsRrType::NAPTR)
        } else if b == "KX".spec_bytes() {
            Some(DnsRrType::KX)
        } else if b == "CERT".spec_bytes() {
            Some(DnsRrType::CERT)
        } else if b == "A6".spec_bytes() {
            Some(DnsRrType::A6)
        } else if b == "DNAME".spec_bytes() {
            Some(DnsRrType::DNAME)
        } else if b == "SINK".spec_bytes() {
            Some(DnsRrType::SINK)
        } else if b == "OPT".spec_bytes() {
            Some(DnsRrType::OPT)
        } else if b == "APL".spec_bytes() {
            Some(DnsRrType::APL)
        } else if b == "DS".spec_bytes() {
            Some(DnsRrType::DS)
        } else if b == "SSHFP".spec_bytes() {
            Some(DnsRrType::SSHFP)
        } else if b == "IPSECKEY".spec_bytes() {
            Some(DnsRrType::IPSECKEY)
        } else if b == "RRSIG".spec_bytes() {
            Some(DnsRrType::RRSIG)
        } else if b == "NSEC".spec_bytes() {
            Some(DnsRrType::NSEC)
        } else if b == "DNSKEY".spec_bytes() {
            Some(DnsRrType::DNSKEY)
        } else if b == "DHCID".spec_bytes() {
            Some(DnsRrType::DHCID)
        } else if b == "NSEC3".spec_bytes() {
            Some(DnsRrType::NSEC3)
        } else if b == "NSEC3PARAM".spec_bytes() {
            Some(DnsRrType::NSEC3PARAM)
        } else if b == "TLSA".spec_bytes() {
            Some(DnsRrType::TLSA)
        } else if b == "SMIMEA".spec_bytes() {
            Some(DnsRrType::SMIMEA)
        } else if b == "HIP".spec_bytes() {
            Some(DnsRrType::HIP)
        } else if b == "NINFO".spec_bytes() {
            Some(DnsRrType::NINFO)
        } else if b == "RKEY".spec_bytes() {
            Some(DnsRrType::RKEY)
        } else if b == "TALINK".spec_bytes() {
            Some(DnsRrType::TALINK)
        } else if b == "CDS".spec_bytes() {
            Some(DnsRrType::CDS)
        } else if b == "CDNSKEY".spec_bytes() {
            Some(DnsRrType::CDNSKEY)
        } else if b == "OPENPGPKEY".spec_bytes() {
            Some(DnsRrType::OPENPGPKEY)
        } else if b == "CSYNC".spec_bytes() {
            Some(DnsRrType::CSYNC)
        } else if b == "ZONEMD".spec_bytes() {
            Some(DnsRrType::ZONEMD)
        } else if b == "SVCB".spec_bytes() {
            Some(DnsRrType::SVCB)
        } else if b == "HTTPS".spec_bytes() {
            Some(DnsRrType::HTTPS)
        } else if b == "SPF".spec_bytes() {
            Some(DnsRrType::SPF)
        } else if b == "UINFO".spec_bytes() {
            Some(DnsRrType::UINFO)
        } else if b == "UID".spec_bytes() {
            Some(DnsRrType::UID)
        } else if b == "GID".spec_bytes() {
            Some(DnsRrType::GID)
        } else if b == "UNSPEC".spec_bytes() {
            Some(DnsRrType::UNSPEC)
        } else if b == "NID".spec_bytes() {
            Some(DnsRrType::NID)
        } else if b == "L32".spec_bytes() {
            Some(DnsRrType::L32)
        } else if b == "L64".spec_bytes() {
            Some(DnsRrType::L64)
        } else if b == "LP".spec_bytes() {
            Some(DnsRrType::LP)
        } else if b == "EUI48".spec_bytes() {
            Some(DnsRrType::EUI48)
        } else if b == "EUI64".spec_bytes() {
            Some(DnsRrType::EUI64)
        } else if b == "TKEY".spec_bytes() {
            Some(DnsRrType::TKEY)
        } else if b == "TSIG".spec_bytes() {
            Some(DnsRrType::TSIG)
        } else if b == "IXFR".spec_bytes() {
            Some(DnsRrType::IXFR)
        } else if b == "AXFR".spec_bytes() {
            Some(DnsRrType::AXFR)
        } else if b == "MAILB".spec_bytes() {
            Some(DnsRrType::MAILB)
        } else if b == "MAILA".spec_bytes() {
            Some(DnsRrType::MAILA)
        } else if b == "ANY".spec_bytes() {
            Some(DnsRrType::ANY)
        } else if b == "URI".spec_bytes() {
            Some(DnsRrType::URI)
        } else if b == "CAA".spec_bytes() {
            Some(DnsRrType::CAA)
        } else if b == "AVC".spec_bytes() {
            Some(DnsRrType::AVC)
        } else if b == "DOA".spec_bytes() {
            Some(DnsRrType::DOA)
        } else if b == "AMTRELAY".spec_bytes() {
            Some(DnsRrType::AMTRELAY)
        } else if b == "TA".spec_bytes() {
            Some(DnsRrType::TA)
        } else if b == "DLV".spec_bytes() {
            Some(DnsRrType::DLV)
        } else if b == "Reserved".spec_bytes() {
            Some(DnsRrType::Reserved(0))
        } else {
            None
        }
    }

    /// Parses a name of a value; `Reserved` parses to the code zero.
    pub fn from_str(s: &str) -> (r: Option<DnsRrType>)
        ensures
            r == DnsRrType::spec_parse(s.spec_bytes()),
    {
        let b = s.as_bytes();
        if bytes_eq(b, "A".as_bytes()) {
            Some(DnsRrType::A)
        } else if bytes_eq(b, "NS".as_bytes()) {
            Some(DnsRrType::NS)
        } else if bytes_eq(b, "MD".as_bytes()) {
            Some(DnsRrType::MD)
        } else if bytes_eq(b, "MF".as_bytes()) {
            Some(DnsRrType::MF)
        } else if bytes_eq(b, "CNAME".as_bytes()) {
            Some(DnsRrType::CNAME)
        } else if bytes_eq(b, "SOA".as_bytes()) {
            Some(DnsRrType::SOA)
        } else if bytes_eq(b, "MB".as_bytes()) {
            Some(DnsRrType::MB)
        } else if bytes_eq(b, "MG".as_bytes()) {
            Some(DnsRrType::MG)
        } else if bytes_eq(b, "MR".as_bytes()) {
            Some(DnsRrType::MR)
        } else if bytes_eq(b, "NULL".as_bytes()) {
            Some(DnsRrType::NULL)
        } else if bytes_eq(b, "WKS".as_bytes()) {
            Some(DnsRrType::WKS)
        } else if bytes_eq(b, "PTR".as_bytes()) {
            Some(DnsRrType::PTR)
        } else if bytes_eq(b, "HINFO".as_bytes()) {
            Some(DnsRrType::HINFO)
        } else if bytes_eq(b, "MINFO".as_bytes()) {
            Some(DnsRrType::MINFO)
        } else if bytes_eq(b, "MX".as_bytes()) {
            Some(DnsRrType::MX)
        } else if bytes_eq(b, "TXT".as_bytes()) {
            Some(DnsRrType::TXT)
        } else if bytes_eq(b, "RP".as_bytes()) {
            Some(DnsRrType::RP)
        } else if bytes_eq(b, "AFSDB".as_bytes()) {
            Some(DnsRrType::AFSDB)
        } else if bytes_eq(b, "X25".as_bytes()) {
            Some(DnsRrType::X25)
        } else if bytes_eq(b, "ISDN".as_bytes()) {
            Some(DnsRrType::ISDN)
        } else if bytes_eq(b, "RT".as_bytes()) {
            Some(DnsRrType::RT)
        } else if bytes_eq(b, "NSAP".as_bytes()) {
            Some(DnsRrType::NSAP)
        } else if bytes_eq(b, "NSAPPTR".as_bytes()) {
            Some(DnsRrType::NSAPPTR)
        } else if bytes_eq(b, "SIG".as_bytes()) {
            Some(DnsRrType::SIG)
        } else if bytes_eq(b, "KEY".as_bytes()) {
            Some(DnsRrType::KEY)
        } else if bytes_eq(b, "PX".as_bytes()) {
            Some(DnsRrType::PX)
        } else if bytes_eq(b, "GPOS".as_bytes()) {
            Some(DnsRrType::GPOS)
        } else if bytes_eq(b, "AAAA".as_bytes()) {
            Some(DnsRrType::AAAA)
        } else if bytes_eq(b, "LOC".as_bytes()) {
            Some(DnsRrType::LOC)
        } else if bytes_eq(b, "NXT".as_bytes()) {
            Some(DnsRrType::NXT)
        } else if bytes_eq(b, "EID".as_bytes()) {
            Some(DnsRrType::EID)
        } else if bytes_eq(b, "NIMLOC".as_bytes()) {
            Some(DnsRrType::NIMLOC)
        } else if bytes_eq(b, "SRV".as_bytes()) {
            Some(DnsRrType::SRV)
        } else if bytes_eq(b, "ATMA".as_bytes()) {
            Some(DnsRrType::ATMA)
        } else if bytes_eq(b, "NAPTR".as_bytes()) {
            Some(DnsRrType::NAPTR)
        } else if bytes_eq(b, "KX".as_bytes()) {
            Some(DnsRrType::KX)
        } else if bytes_eq(b, "CERT".as_bytes()) {
            Some(DnsRrType::CERT)
        } else if bytes_eq(b, "A6".as_bytes()) {
            Some(DnsRrType::A6)
        } else if bytes_eq(b, "DNAME".as_bytes()) {
            Some(DnsRrType::DNAME)
        } else if bytes_eq(b, "SINK".as_bytes()) {
            Some(DnsRrType::SINK)
        } else if bytes_eq(b, "OPT".as_bytes()) {
            Some(DnsRrType::OPT)
        } else if bytes_eq(b, "APL".as_bytes()) {
            Some(DnsRrType::APL)
        } else if bytes_eq(b, "DS".as_bytes()) {
            Some(DnsRrType::DS)
        } else if bytes_eq(b, "SSHFP".as_bytes()) {
            Some(DnsRrType::SSHFP)
        } else if bytes_eq(b, "IPSECKEY".as_bytes()) {
            Some(DnsRrType::IPSECKEY)
        } else if bytes_eq(b, "RRSIG".as_bytes()) {
            Some(DnsRrType::RRSIG)
        } else if bytes_eq(b, "NSEC".as_bytes()) {
            Some(DnsRrType::NSEC)
        } else if bytes_eq(b, "DNSKEY".as_bytes()) {
            Some(DnsRrType::DNSKEY)
        } else if bytes_eq(b, "DHCID".as_bytes()) {
            Some(DnsRrType::DHCID)
        } else if bytes_eq(b, "NSEC3".as_bytes()) {
            Some(DnsRrType::NSEC3)
        } else if bytes_eq(b, "NSEC3PARAM".as_bytes()) {
            Some(DnsRrType::NSEC3PARAM)
        } else if bytes_eq(b, "TLSA".as_bytes()) {
            Some(DnsRrType::TLSA)
        } else if bytes_eq(b, "SMIMEA".as_bytes()) {
            Some(DnsRrType::SMIMEA)
        } else if bytes_eq(b, "HIP".as_bytes()) {
            Some(DnsRrType::HIP)
        } else if bytes_eq(b, "NINFO".as_bytes()) {
            Some(DnsRrType::NINFO)
        } else if bytes_eq(b, "RKEY".as_bytes()) {
            Some(DnsRrType::RKEY)
        } else if bytes_eq(b, "TALINK".as_bytes()) {
            Some(DnsRrType::TALINK)
        } else if bytes_eq(b, "CDS".as_bytes()) {
            Some(DnsRrType::CDS)
        } else if bytes_eq(b, "CDNSKEY".as_bytes()) {
            Some(DnsRrType::CDNSKEY)
        } else if bytes_eq(b, "OPENPGPKEY".as_bytes()) {
            Some(DnsRrType::OPENPGPKEY)
        } else if bytes_eq(b, "CSYNC".as_bytes()) {
            Some(DnsRrType::CSYNC)
        } else if bytes_eq(b, "ZONEMD".as_bytes()) {
            Some(DnsRrType::ZONEMD)
        } else if bytes_eq(b, "SVCB".as_bytes()) {
            Some(DnsRrType::SVCB)
        } else if bytes_eq(b, "HTTPS".as_bytes()) {
            Some(DnsRrType::HTTPS)
        } else if bytes_eq(b, "SPF".as_bytes()) {
            Some(DnsRrType::SPF)
        } else if bytes_eq(b, "UINFO".as_bytes()) {
            Some(DnsRrType::UINFO)
        } else if bytes_eq(b, "UID".as_bytes()) {
            Some(DnsRrType::UID)
        } else if bytes_eq(b, "GID".as_bytes()) {
            Some(DnsRrType::GID)
        } else if bytes_eq(b, "UNSPEC".as_bytes()) {
            Some(DnsRrType::UNSPEC)
        } else if bytes_eq(b, "NID".as_bytes()) {
            Some(DnsRrType::NID)
        } else if bytes_eq(b, "L32".as_bytes()) {
            Some(DnsRrType::L32)
        } else if bytes_eq(b, "L64".as_bytes()) {
            Some(DnsRrType::L64)
        } else if bytes_eq(b, "LP".as_bytes()) {
            Some(DnsRrType::LP)
        } else if bytes_eq(b, "EUI48".as_bytes()) {
            Some(DnsRrType::EUI48)
        } else if bytes_eq(b, "EUI64".as_bytes()) {
            Some(DnsRrType::EUI64)
        } else if bytes_eq(b, "TKEY".as_bytes()) {
            Some(DnsRrType::TKEY)
        } else if bytes_eq(b, "TSIG".as_bytes()) {
            Some(DnsRrType::TSIG)
        } else if bytes_eq(b, "IXFR".as_bytes()) {
            Some(DnsRrType::IXFR)
        } else if bytes_eq(b, "AXFR".as_bytes()) {
            Some(DnsRrType::AXFR)
        } else if bytes_eq(b, "MAILB".as_bytes()) {
            Some(DnsRrType::MAILB)
        } else if bytes_eq(b, "MAILA".as_bytes()) {
            Some(DnsRrType::MAILA)
        } else if bytes_eq(b, "ANY".as_bytes()) {
            Some(DnsRrType::ANY)
        } else if bytes_eq(b, "URI".as_bytes()) {
            Some(DnsRrType::URI)
        } else if bytes_eq(b, "CAA".as_bytes()) {
            Some(DnsRrType::CAA)
        } else if bytes_eq(b, "AVC".as_bytes()) {
            Some(DnsRrType::AVC)
        } else if bytes_eq(b, "DOA".as_bytes()) {
            Some(DnsRrType::DOA)
        } else if bytes_eq(b, "AMTRELAY".as_bytes()) {
            Some(DnsRrType::AMTRELAY)
        } else if bytes_eq(b, "TA".as_bytes()) {
            Some(DnsRrType::TA)
        } else if bytes_eq(b, "DLV".as_bytes()) {
            Some(DnsRrType::DLV)
        } else if bytes_eq(b, "Reserved".as_bytes()) {
            Some(DnsRrType::Reserved(0))
        } else {
            None
        }
    }
}

impl From<u16> for DnsRrType {
    fn from(v: u16) -> (r: DnsRrType) {
        DnsRrType::from_raw(v)
    }
}

impl vstd::std_specs::convert::FromSpecImpl<u16> for DnsRrType {
    open spec fn obeys_from_spec() -> bool {
        true
    }

    open spec fn from_spec(v: u16) -> DnsRrType {
        DnsRrType::spec_from_raw(v)
    }
}

impl From<DnsRrType> for u16 {
    fn from(v: DnsRrType) -> (r: u16) {
        v.raw()
    }
}

impl vstd::std_specs::convert::FromSpecImpl<DnsRrType> for u16 {
    open spec fn obeys_from_spec() -> bool {
        true
    }

    open spec fn from_spec(v: DnsRrType) -> u16 {
        v.spec_raw()
    }
}

impl Default for DnsRrType {
    fn default() -> (r: DnsRrType)
        ensures
            r == DnsRrType::Reserved(0),
    {
        DnsRrType::Reserved(0)
    }
}

} // verus!
