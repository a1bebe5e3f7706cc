//! DNS response codes.
use vstd::prelude::*;
use vstd::string::StringSliceAdditionalSpecFns;

use crate::text::bytes_eq;

verus! {

/// DNS response code. Only its low four bits fit in the DNS header.
#[derive(Clone, Copy, Debug, PartialEq, Eq, Hash, Structural)]
#[allow(non_camel_case_types)]
pub enum DnsRCode {
    NoError,
    FormErr,
    ServFail,
    NXDomain,
    NotImp,
    Refused,
    YXDomain,
    YXRRSet,
    NXRRSet,
    NotAuth,
    NotZone,
    DSOTYPENI,
    BADVERS_BADSIG,
    BADKEY,
    BADTIME,
    BADMODE,
    BADNAME,
    BADALG,
    BADTRUNC,
    BADCOOKIE,
    /// Any other value.
    Unassigned(u16),
    Reserved,
}

impl DnsRCode {
    /// The value of a numeric code.
    pub open spec fn spec_from_raw(v: u16) -> DnsRCode {
        if v == 0 {
            DnsRCode::NoError
        } else if v == 1 {
            DnsRCode::FormErr
        } else if v == 2 {
            DnsRCode::ServFail
        } else if v == 3 {
            DnsRCode::NXDomain
        } else if v == 4 {
            DnsRCode::NotImp
        } else if v == 5 {
            DnsRCode::Refused
        } else if v == 6 {
            DnsRCode::YXDomain
        } else if v == 7 {
            DnsRCode::YXRRSet
        } else if v == 8 {
            DnsRCode::NXRRSet
        } else if v == 9 {
            DnsRCode::NotAuth
        } else if v == 10 {
            DnsRCode::NotZone
        } else if v == 11 {
            DnsRCode::DSOTYPENI
        } else if v == 16 {
            DnsRCode::BADVERS_BADSIG
        } else if v == 17 {
            DnsRCode::BADKEY
        } else if v == 18 {
            DnsRCode::BADTIME
        } else if v == 19 {
            DnsRCode::BADMODE
        } else if v == 20 {
            DnsRCode::BADNAME
        } else if v == 21 {
            DnsRCode::BADALG
        } else if v == 22 {
            DnsRCode::BADTRUNC
        } else if v == 23 {
            DnsRCode::BADCOOKIE
        } else if v == 65535 {
            DnsRCode::Reserved
        } else {
            DnsRCode::Unassigned(v)
        }
    }

    /// The numeric code of a value.
    pub open spec fn spec_raw(self) -> u16 {
        match self {
            DnsRCode::NoError => 0,
            DnsRCode::FormErr => 1,
            DnsRCode::ServFail => 2,
            DnsRCode::NXDomain => 3,
            DnsRCode::NotImp => 4,
            DnsRCode::Refused => 5,
            DnsRCode::YXDomain => 6,
            DnsRCode::YXRRSet => 7,
            DnsRCode::NXRRSet => 8,
            DnsRCode::NotAuth => 9,
            DnsRCode::NotZone => 10,
            DnsRCode::DSOTYPENI => 11,
            DnsRCode::BADVERS_BADSIG => 16,
            DnsRCode::BADKEY => 17,
            DnsRCode::BADTIME => 18,
            DnsRCode::BADMODE => 19,
            DnsRCode::BADNAME => 20,
            DnsRCode::BADALG => 21,
            DnsRCode::BADTRUNC => 22,
            DnsRCode::BADCOOKIE => 23,
            DnsRCode::Reserved => 65535,
            DnsRCode::Unassigned(v) => v,
        }
    }

    /// The value of the numeric code `v`; an unknown code is kept in `Unassigned`.
    pub fn from_raw(v: u16) -> (r: DnsRCode)
        ensures
            r == DnsRCode::spec_from_raw(v),
    {
        if v == 0 {
            DnsRCode::NoError
        } else if v == 1 {
            DnsRCode::FormErr
        } else if v == 2 {
            DnsRCode::ServFail
        } else if v == 3 {
            DnsRCode::NXDomain
        } else if v == 4 {
            DnsRCode::NotImp
        } else if v == 5 {
            DnsRCode::Refused
        } else if v == 6 {
            DnsRCode::YXDomain
        } else if v == 7 {
            DnsRCode::YXRRSet
        } else if v == 8 {
            DnsRCode::NXRRSet
        } else if v == 9 {
            DnsRCode::NotAuth
        } else if v == 10 {
            DnsRCode::NotZone
        } else if v == 11 {
            DnsRCode::DSOTYPENI
        } else if v == 16 {
            DnsRCode::BADVERS_BADSIG
        } else if v == 17 {
            DnsRCode::BADKEY
        } else if v == 18 {
            DnsRCode::BADTIME
        } else if v == 19 {
            DnsRCode::BADMODE
        } else if v == 20 {
            DnsRCode::BADNAME
        } else if v == 21 {
            DnsRCode::BADALG
        } else if v == 22 {
            DnsRCode::BADTRUNC
        } else if v == 23 {
            DnsRCode::BADCOOKIE
        } else if v == 65535 {
            DnsRCode::Reserved
        } else {
            DnsRCode::Unassigned(v)
        }
    }

    /// The numeric code of this value.
    pub fn raw(self) -> (r: u16)
        ensures
            r == self.spec_raw(),
    {
        match self {
            DnsRCode::NoError => 0,
            DnsRCode::FormErr => 1,
            DnsRCode::ServFail => 2,
            DnsRCode::NXDomain => 3,
            DnsRCode::NotImp => 4,
            DnsRCode::Refused => 5,
            DnsRCode::YXDomain => 6,
            DnsRCode::YXRRSet => 7,
            DnsRCode::NXRRSet => 8,
            DnsRCode::NotAuth => 9,
            DnsRCode::NotZone => 10,
            DnsRCode::DSOTYPENI => 11,
            DnsRCode::BADVERS_BADSIG => 16,
            DnsRCode::BADKEY => 17,
            DnsRCode::BADTIME => 18,
            DnsRCode::BADMODE => 19,
            DnsRCode::BADNAME => 20,
            DnsRCode::BADALG => 21,
            DnsRCode::BADTRUNC => 22,
            DnsRCode::BADCOOKIE => 23,
            DnsRCode::Reserved => 65535,
            DnsRCode::Unassigned(v) => v,
        }
    }

    /// The name of this value.
    pub open spec fn spec_name(self) -> Seq<char> {
        match self {
            DnsRCode::NoError => "NoError"@,
            DnsRCode::FormErr => "FormErr"@,
            DnsRCode::ServFail => "ServFail"@,
            DnsRCode::NXDomain => "NXDomain"@,
            DnsRCode::NotImp => "NotImp"@,
            DnsRCode::Refused => "Refused"@,
            DnsRCode::YXDomain => "YXDomain"@,
            DnsRCode::YXRRSet => "YXRRSet"@,
            DnsRCode::NXRRSet => "NXRRSet"@,
            DnsRCode::NotAuth => "NotAuth"@,
            DnsRCode::NotZone => "NotZone"@,
            DnsRCode::DSOTYPENI => "DSOTYPENI"@,
            DnsRCode::BADVERS_BADSIG => "BADVERS_BADSIG"@,
            DnsRCode::BADKEY => "BADKEY"@,
            DnsRCode::BADTIME => "BADTIME"@,
            DnsRCode::BADMODE => "BADMODE"@,
            DnsRCode::BADNAME => "BADNAME"@,
            DnsRCode::BADALG => "BADALG"@,
            DnsRCode::BADTRUNC => "BADTRUNC"@,
            DnsRCode::BADCOOKIE => "BADCOOKIE"@,
            DnsRCode::Reserved => "Reserved"@,
            DnsRCode::Unassigned(_) => "Unassigned"@,
        }
    }

    /// The name of this value.
    pub fn as_ref(&self) -> (r: &'static str)
        ensures
            r@ == self.spec_name(),
    {
        match self {
            DnsRCode::NoError => "NoError",
            DnsRCode::FormErr => "FormErr",
            DnsRCode::ServFail => "ServFail",
            DnsRCode::NXDomain => "NXDomain",
            DnsRCode::NotImp => "NotImp",
            DnsRCode::Refused => "Refused",
            DnsRCode::YXDomain => "YXDomain",
            DnsRCode::YXRRSet => "YXRRSet",
            DnsRCode::NXRRSet => "NXRRSet",
            DnsRCode::NotAuth => "NotAuth",
            DnsRCode::NotZone => "NotZone",
            DnsRCode::DSOTYPENI => "DSOTYPENI",
            DnsRCode::BADVERS_BADSIG => "BADVERS_BADSIG",
            DnsRCode::BADKEY => "BADKEY",
            DnsRCode::BADTIME => "BADTIME",
            DnsRCode::BADMODE => "BADMODE",
            DnsRCode::BADNAME => "BADNAME",
            DnsRCode::BADALG => "BADALG",
            DnsRCode::BADTRUNC => "BADTRUNC",
            DnsRCode::BADCOOKIE => "BADCOOKIE",
            DnsRCode::Reserved => "Reserved",
            DnsRCode::Unassigned(_) => "Unassigned",
        }
    }

    /// The value named by the UTF-8 bytes `b`, if any.
    pub open spec fn spec_parse(b: Seq<u8>) -> Option<DnsRCode> {
        if b == "NoError".spec_bytes() {
            Some(DnsRCode::NoError)
        } else if b == "FormErr".spec_bytes() {
            Some(DnsRCode::FormErr)
        } else if b == "ServFail".spec_bytes() {
            Some(DnsRCode::ServFail)
        } else if b == "NXDomain".spec_bytes() {
            Some(DnsRCode::NXDomain)
        } else if b == "NotImp".spec_bytes() {
            Some(DnsRCode::NotImp)
        } else if b == "Refused".spec_bytes() {
            Some(DnsRCode::Refused)
        } else if b == "YXDomain".spec_bytes() {
            Some(DnsRCode::YXDomain)
        } else if b == "YXRRSet".spec_bytes() {
            Some(DnsRCode::YXRRSet)
        } else if b == "NXRRSet".spec_bytes() {
            Some(DnsRCode::NXRRSet)
        } else if b == "NotAuth".spec_bytes() {
            Some(DnsRCode::NotAuth)
        } else if b == "NotZone".spec_bytes() {
            Some(DnsRCode::NotZone)
        } else if b == "DSOTYPENI".spec_bytes() {
            Some(DnsRCode::DSOTYPENI)
        } else if b == "BADVERS_BADSIG".spec_bytes() {
            Some(DnsRCode::BADVERS_BADSIG)
        } else if b == "BADKEY".spec_bytes() {
            Some(DnsRCode::BADKEY)
        } else if b == "BADTIME".spec_bytes() {
            Some(DnsRCode::BADTIME)
        } else if b == "BADMODE".spec_bytes() {
            Some(DnsRCode::BADMODE)
        } else if b == "BADNAME".spec_bytes() {
            Some(DnsRCode::BADNAME)
        } else if b == "BADALG".spec_bytes() {
            Some(DnsRCode::BADALG)
        } else if b == "BADTRUNC".spec_bytes() {
            Some(DnsRCode::BADTRUNC)
        } else if b == "BADCOOKIE".spec_bytes() {
            Some(DnsRCode::BADCOOKIE)
        } else if b == "Reserved".spec_bytes() {
            Some(DnsRCode::Reserved)
        } else if b == "Unassigned".spec_bytes() {
            Some(DnsRCode::Unassigned(0))
        } else {
            None
        }
    }

    /// Parses a name of a value; `Unassigned` parses to the code zero.
    pub fn from_str(s: &str) -> (r: Option<DnsRCode>)
        ensures
            r == DnsRCode::spec_parse(s.spec_bytes()),
    {
        let b = s.as_bytes();
        if bytes_eq(b, "NoError".as_bytes()) {
            Some(DnsRCode::NoError)
        } else if bytes_eq(b, "FormErr".as_bytes()) {
            Some(DnsRCode::FormErr)
        } else if bytes_eq(b, "ServFail".as_bytes()) {
            Some(DnsRCode::ServFail)
        } else if bytes_eq(b, "NXDomain".as_bytes()) {
            Some(DnsRCode::NXDomain)
        } else if bytes_eq(b, "NotImp".as_bytes()) {
            Some(DnsRCode::NotImp)
        } else if bytes_eq(b, "Refused".as_bytes()) {
            Some(DnsRCode::Refused)
        } else if bytes_eq(b, "YXDomain".as_bytes()) {
            Some(DnsRCode::YXDomain)
        } else if bytes_eq(b, "YXRRSet".as_bytes()) {
            Some(DnsRCode::YXRRSet)
        } else if bytes_eq(b, "NXRRSet".as_bytes()) {
            Some(DnsRCode::NXRRSet)
        } else if bytes_eq(b, "NotAuth".as_bytes()) {
            Some(DnsRCode::NotAuth)
        } else if bytes_eq(b, "NotZone".as_bytes()) {
            Some(DnsRCode::NotZone)
        } else if bytes_eq(b, "DSOTYPENI".as_bytes()) {
            Some(DnsRCode::DSOTYPENI)
        } else if bytes_eq(b, "BADVERS_BADSIG".as_bytes()) {
            Some(DnsRCode::BADVERS_BADSIG)
        } else if bytes_eq(b, "BADKEY".as_bytes()) {
            Some(DnsRCode::BADKEY)
        } else if bytes_eq(b, "BADTIME".as_bytes()) {
            Some(DnsRCode::BADTIME)
        } else if bytes_eq(b, "BADMODE".as_bytes()) {
            Some(DnsRCode::BADMODE)
        } else if bytes_eq(b, "BADNAME".as_bytes()) {
            Some(DnsRCode::BADNAME)
        } else if bytes_eq(b, "BADALG".as_bytes()) {
            Some(DnsRCode::BADALG)
        } else if bytes_eq(b, "BADTRUNC".as_bytes()) {
            Some(DnsRCode::BADTRUNC)
        } else if bytes_eq(b, "BADCOOKIE".as_bytes()) {
            Some(DnsRCode::BADCOOKIE)
        } else if bytes_eq(b, "Reserved".as_bytes()) {
            Some(DnsRCode::Reserved)
        } else if bytes_eq(b, "Unassigned".as_bytes()) {
            Some(DnsRCode::Unassigned(0))
        } else {
            None
        }
    }
}

impl From<u16> for DnsRCode {
    fn from(v: u16) -> (r: DnsRCode) {
        DnsRCode::from_raw(v)
    }
}

impl vstd::std_specs::convert::FromSpecImpl<u16> for DnsRCode {
    open spec fn obeys_from_spec() -> bool {
        true
    }

    open spec fn from_spec(v: u16) -> DnsRCode {
        DnsRCode::spec_from_raw(v)
    }
}

impl From<DnsRCode> for u16 {
    fn from(v: DnsRCode) -> (r: u16) {
        v.raw()
    }
}

impl vstd::std_specs::convert::FromSpecImpl<DnsRCode> for u16 {
    open spec fn obeys_from_spec() -> bool {
        true
    }

    open spec fn from_spec(v: DnsRCode) -> u16 {
        v.spec_raw()
    }
}

impl Default for DnsRCode {
    fn default() -> (r: DnsRCode)
        ensures
            r == DnsRCode::NoError,
    {
        DnsRCode::NoError
    }
}

} // verus!
