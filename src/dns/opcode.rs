//! DNS operation codes.
use vstd::prelude::*;
use vstd::string::StringSliceAdditionalSpecFns;

use crate::text::bytes_eq;

verus! {

/// DNS operation code.
#[derive(Clone, Copy, Debug, PartialEq, Eq, Hash, Structural)]
pub enum DnsOpCode {
    Query,
    IQuery,
    Status,
    Notify,
    Update,
    DSO,
    /// Any other value.
    Unassigned(u8),
}

impl DnsOpCode {
    /// The value of a numeric code.
    pub open spec fn spec_from_raw(v: u8) -> DnsOpCode {
        if v == 0 {
            DnsOpCode::Query
        } else if v == 1 {
            DnsOpCode::IQuery
        } else if v == 2 {
            DnsOpCode::Status
        } else if v == 4 {
            DnsOpCode::Notify
        } else if v == 5 {
            DnsOpCode::Update
        } else if v == 6 {
            DnsOpCode::DSO
        } else {
            DnsOpCode::Unassigned(v)
        }
    }

    /// The numeric code of a value.
    pub open spec fn spec_raw(self) -> u8 {
        match self {
            DnsOpCode::Query => 0,
            DnsOpCode::IQuery => 1,
            DnsOpCode::Status => 2,
            DnsOpCode::Notify => 4,
            DnsOpCode::Update => 5,
            DnsOpCode::DSO => 6,
            DnsOpCode::Unassigned(v) => v,
        }
    }

    /// The value of the numeric code `v`; an unknown code is kept in `Unassigned`.
    pub fn from_raw(v: u8) -> (r: DnsOpCode)
        ensures
            r == DnsOpCode::spec_from_raw(v),
    {
        if v == 0 {
            DnsOpCode::Query
        } else if v == 1 {
            DnsOpCode::IQuery
        } else if v == 2 {
            DnsOpCode::Status
        } else if v == 4 {
            DnsOpCode::Notify
        } else if v == 5 {
            DnsOpCode::Update
        } else if v == 6 {
            DnsOpCode::DSO
        } else {
            DnsOpCode::Unassigned(v)
        }
    }

    /// The numeric code of this value.
    pub fn raw(self) -> (r: u8)
        ensures
            r == self.spec_raw(),
    {
        match self {
            DnsOpCode::Query => 0,
            DnsOpCode::IQuery => 1,
            DnsOpCode::Status => 2,
            DnsOpCode::Notify => 4,
            DnsOpCode::Update => 5,
            DnsOpCode::DSO => 6,
            DnsOpCode::Unassigned(v) => v,
        }
    }

    /// The name of this value.
    pub open spec fn spec_name(self) -> Seq<char> {
        match self {
            DnsOpCode::Query => "Query"@,
            DnsOpCode::IQuery => "IQuery"@,
            DnsOpCode::Status => "Status"@,
            DnsOpCode::Notify => "Notify"@,
            DnsOpCode::Update => "Update"@,
            DnsOpCode::DSO => "DSO"@,
            DnsOpCode::Unassigned(_) => "Unassigned"@,
        }
    }

    /// The name of this value.
    pub fn as_ref(&self) -> (r: &'static str)
        ensures
            r@ == self.spec_name(),
    {
        match self {
            DnsOpCode::Query => "Query",
            DnsOpCode::IQuery => "IQuery",
            DnsOpCode::Status => "Status",
            DnsOpCode::Notify => "Notify",
            DnsOpCode::Update => "Update",
            DnsOpCode::DSO => "DSO",
            DnsOpCode::Unassigned(_) => "Unassigned",
        }
    }

    /// The value named by the UTF-8 bytes `b`, if any.
    pub open spec fn spec_parse(b: Seq<u8>) -> Option<DnsOpCode> {
        if b == "Query".spec_bytes() {
            Some(DnsOpCode::Query)
        } else if b == "IQuery".spec_bytes() {
            Some(DnsOpCode::IQuery)
        } else if b == "Status".spec_bytes() {
            Some(DnsOpCode::Status)
        } else if b == "Notify".spec_bytes() {
            Some(DnsOpCode::Notify)
        } else if b == "Update".spec_bytes() {
            Some(DnsOpCode::Update)
        } else if b == "DSO".spec_bytes() {
            Some(DnsOpCode::DSO)
        } else if b == "Unassigned".spec_bytes() {
            Some(DnsOpCode::Unassigned(0))
        } else {
            None
        }
    }

    /// Parses a name of a value; `Unassigned` parses to the code zero.
    pub fn from_str(s: &str) -> (r: Option<DnsOpCode>)
        ensures
            r == DnsOpCode::spec_parse(s.spec_bytes()),
    {
        let b = s.as_bytes();
        if bytes_eq(b, "Query".as_bytes()) {
            Some(DnsOpCode::Query)
        } else if bytes_eq(b, "IQuery".as_bytes()) {
            Some(DnsOpCode::IQuery)
        } else if bytes_eq(b, "Status".as_bytes()) {
            Some(DnsOpCode::Status)
        } else if bytes_eq(b, "Notify".as_bytes()) {
            Some(DnsOpCode::Notify)
        } else if bytes_eq(b, "Update".as_bytes()) {
            Some(DnsOpCode::Update)
        } else if bytes_eq(b, "DSO".as_bytes()) {
            Some(DnsOpCode::DSO)
        } else if bytes_eq(b, "Unassigned".as_bytes()) {
            Some(DnsOpCode::Unassigned(0))
        } else {
            None
        }
    }
}

impl From<u8> for DnsOpCode {
    fn from(v: u8) -> (r: DnsOpCode) {
        DnsOpCode::from_raw(v)
    }
}

impl vstd::std_specs::convert::FromSpecImpl<u8> for DnsOpCode {
    open spec fn obeys_from_spec() -> bool {
        true
    }

    open spec fn from_spec(v: u8) -> DnsOpCode {
        DnsOpCode::spec_from_raw(v)
    }
}

impl From<DnsOpCode> for u8 {
    fn from(v: DnsOpCode) -> (r: u8) {
        v.raw()
    }
}

impl vstd::std_specs::convert::FromSpecImpl<DnsOpCode> for u8 {
    open spec fn obeys_from_spec() -> bool {
        true
    }

    open spec fn from_spec(v: DnsOpCode) -> u8 {
        v.spec_raw()
    }
}

impl Default for DnsOpCode {
    fn default() -> (r: DnsOpCode)
        ensures
            r == DnsOpCode::Query,
    {
        DnsOpCode::Query
    }
}

} // verus!
