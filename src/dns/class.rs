//! DNS classes.
use vstd::prelude::*;
use vstd::string::StringSliceAdditionalSpecFns;

use crate::text::bytes_eq;

verus! {

/// DNS class.
#[derive(Clone, Copy, Debug, PartialEq, Eq, Hash, Structural)]
pub enum DnsClass {
    Internet,
    Chaos,
    Hesiod,
    ClassNone,
    Any,
    /// Any other value.
    Reserved(u16),
}

impl DnsClass {
    /// The value of a numeric code.
    pub open spec fn spec_from_raw(v: u16) -> DnsClass {
        if v == 1 {
            DnsClass::Internet
        } else if v == 3 {
            DnsClass::Chaos
        } else if v == 4 {
            DnsClass::Hesiod
        } else if v == 254 {
            DnsClass::ClassNone
        } else if v == 255 {
            DnsClass::Any
        } else {
            DnsClass::Reserved(v)
        }
    }

    /// The numeric code of a value.
    pub open spec fn spec_raw(self) -> u16 {
        match self {
            DnsClass::Internet => 1,
            DnsClass::Chaos => 3,
            DnsClass::Hesiod => 4,
            DnsClass::ClassNone => 254,
            DnsClass::Any => 255,
            DnsClass::Reserved(v) => v,
        }
    }

    /// The value of the numeric code `v`; an unknown code is kept in `Reserved`.
    pub fn from_raw(v: u16) -> (r: DnsClass)
        ensures
            r == DnsClass::spec_from_raw(v),
    {
        if v == 1 {
            DnsClass::Internet
        } else if v == 3 {
            DnsClass::Chaos
        } else if v == 4 {
            DnsClass::Hesiod
        } else if v == 254 {
            DnsClass::ClassNone
        } else if v == 255 {
            DnsClass::Any
        } else {
            DnsClass::Reserved(v)
        }
    }

    /// The numeric code of this value.
    pub fn raw(self) -> (r: u16)
        ensures
            r == self.spec_raw(),
    {
        match self {
            DnsClass::Internet => 1,
            DnsClass::Chaos => 3,
            DnsClass::Hesiod => 4,
            DnsClass::ClassNone => 254,
            DnsClass::Any => 255,
            DnsClass::Reserved(v) => v,
        }
    }

    /// The name of this value.
    pub open spec fn spec_name(self) -> Seq<char> {
        match self {
            DnsClass::Internet => "Internet"@,
            DnsClass::Chaos => "Chaos"@,
            DnsClass::Hesiod => "Hesiod"@,
            DnsClass::ClassNone => "None"@,
            DnsClass::Any => "Any"@,
            DnsClass::Reserved(_) => "Reserved"@,
        }
    }

    /// The name of this value.
    pub fn as_ref(&self) -> (r: &'static str)
        ensures
            r@ == self.spec_name(),
    {
        match self {
            DnsClass::Internet => "Internet",
            DnsClass::Chaos => "Chaos",
            DnsClass::Hesiod => "Hesiod",
            DnsClass::ClassNone => "None",
            DnsClass::Any => "Any",
            DnsClass::Reserved(_) => "Reserved",
        }
    }

    /// The value named by the UTF-8 bytes `b`, if any.
    pub open spec fn spec_parse(b: Seq<u8>) -> Option<DnsClass> {
        if b == "Internet".spec_bytes() {
            Some(DnsClass::Internet)
        } else if b == "IN".spec_bytes() {
            Some(DnsClass::Internet)
        } else if b == "Chaos".spec_bytes() {
            Some(DnsClass::Chaos)
        } else if b == "CH".spec_bytes() {
            Some(DnsClass::Chaos)
        } else if b == "Hesiod".spec_bytes() {
            Some(DnsClass::Hesiod)
        } else if b == "HS".spec_bytes() {
            Some(DnsClass::Hesiod)
        } else if b == "NONE".spec_bytes() {
            Some(DnsClass::ClassNone)
        } else if b == "None".spec_bytes() {
            Some(DnsClass::ClassNone)
        } else if b == "ANY".spec_bytes() {
            Some(DnsClass::Any)
        } else if b == "Any".spec_bytes() {
            Some(DnsClass::Any)
        } else if b == "*".spec_bytes() {
            Some(DnsClass::Any)
        } else if b == "Reserved".spec_bytes() {
            Some(DnsClass::Reserved(0))
        } else {
            None
        }
    }

    /// Parses a name of a value; `Reserved` parses to the code zero.
    pub fn from_str(s: &str) -> (r: Option<DnsClass>)
        ensures
            r == DnsClass::spec_parse(s.spec_bytes()),
    {
        let b = s.as_bytes();
        if bytes_eq(b, "Internet".as_bytes()) {
            Some(DnsClass::Internet)
        } else if bytes_eq(b, "IN".as_bytes()) {
            Some(DnsClass::Internet)
        } else if bytes_eq(b, "Chaos".as_bytes()) {
            Some(DnsClass::Chaos)
        } else if bytes_eq(b, "CH".as_bytes()) {
            Some(DnsClass::Chaos)
        } else if bytes_eq(b, "Hesiod".as_bytes()) {
            Some(DnsClass::Hesiod)
        } else if bytes_eq(b, "HS".as_bytes()) {
            Some(DnsClass::Hesiod)
        } else if bytes_eq(b, "NONE".as_bytes()) {
            Some(DnsClass::ClassNone)
        } else if bytes_eq(b, "None".as_bytes()) {
            Some(DnsClass::ClassNone)
        } else if bytes_eq(b, "ANY".as_bytes()) {
            Some(DnsClass::Any)
        } else if bytes_eq(b, "Any".as_bytes()) {
            Some(DnsClass::Any)
        } else if bytes_eq(b, "*".as_bytes()) {
            Some(DnsClass::Any)
        } else if bytes_eq(b, "Reserved".as_bytes()) {
            Some(DnsClass::Reserved(0))
        } else {
            None
        }
    }
}

impl From<u16> for DnsClass {
    fn from(v: u16) -> (r: DnsClass) {
        DnsClass::from_raw(v)
    }
}

impl vstd::std_specs::convert::FromSpecImpl<u16> for DnsClass {
    open spec fn obeys_from_spec() -> bool {
        true
    }

    open spec fn from_spec(v: u16) -> DnsClass {
        DnsClass::spec_from_raw(v)
    }
}

impl From<DnsClass> for u16 {
    fn from(v: DnsClass) -> (r: u16) {
        v.raw()
    }
}

impl vstd::std_specs::convert::FromSpecImpl<DnsClass> for u16 {
    open spec fn obeys_from_spec() -> bool {
        true
    }

    open spec fn from_spec(v: DnsClass) -> u16 {
        v.spec_raw()
    }
}

impl Default for DnsClass {
    fn default() -> (r: DnsClass)
        ensures
            r == DnsClass::Reserved(0),
    {
        DnsClass::Reserved(0)
    }
}

} // verus!
