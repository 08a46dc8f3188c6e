//! The resource-record model: record types, rdata, store entries and wire
//! records.
//!
//! Addresses and names inside rdata are held as plain values (an IPv4 address
//! as its 32 bits, a name as its dot-terminated text bytes); the unverified
//! rim converts them to the wire library's types when a response is encoded.

use vstd::prelude::*;

use crate::name::DnsName;

verus! {

/// The closed set of record types the server understands, plus a carrier for
/// any other type number seen on the wire. Unknown types are never looked up
/// in the store; they produce an empty answer section.
#[derive(Debug, Clone, Copy, PartialEq, Eq, Hash, Structural)]
pub enum RecordType {
    A,
    AAAA,
    NS,
    CNAME,
    PTR,
    SOA,
    MX,
    TXT,
    DNSKEY,
    SRV,
    CAA,
    OPENPGPKEY,
    TLSA,
    RRSIG,
    Unknown(u16),
}

/// The mnemonic under which a known record type appears in store keys.
pub open spec fn mnemonic_of(rt: RecordType) -> Seq<u8> {
    match rt {
        RecordType::A => seq![65u8],
        RecordType::AAAA => seq![65u8, 65u8, 65u8, 65u8],
        RecordType::NS => seq![78u8, 83u8],
        RecordType::CNAME => seq![67u8, 78u8, 65u8, 77u8, 69u8],
        RecordType::PTR => seq![80u8, 84u8, 82u8],
        RecordType::SOA => seq![83u8, 79u8, 65u8],
        RecordType::MX => seq![77u8, 88u8],
        RecordType::TXT => seq![84u8, 88u8, 84u8],
        RecordType::DNSKEY => seq![68u8, 78u8, 83u8, 75u8, 69u8, 89u8],
        RecordType::SRV => seq![83u8, 82u8, 86u8],
        RecordType::CAA => seq![67u8, 65u8, 65u8],
        RecordType::OPENPGPKEY => seq![
            79u8,
            80u8,
            69u8,
            78u8,
            80u8,
            71u8,
            80u8,
            75u8,
            69u8,
            89u8,
        ],
        RecordType::TLSA => seq![84u8, 76u8, 83u8, 65u8],
        RecordType::RRSIG => seq![82u8, 82u8, 83u8, 73u8, 71u8],
        RecordType::Unknown(_) => Seq::empty(),
    }
}

impl RecordType {
    /// Whether this is one of the types the server understands.
    pub fn is_known(&self) -> (r: bool)
        ensures
            r == !(*self is Unknown),
    {
        !matches!(self, RecordType::Unknown(_))
    }

    /// The number under which this type travels on the wire.
    pub fn code(&self) -> (r: u16)
        ensures
            r == code_of(*self),
    {
        match self {
            RecordType::A => 1,
            RecordType::NS => 2,
            RecordType::CNAME => 5,
            RecordType::SOA => 6,
            RecordType::PTR => 12,
            RecordType::MX => 15,
            RecordType::TXT => 16,
            RecordType::AAAA => 28,
            RecordType::SRV => 33,
            RecordType::RRSIG => 46,
            RecordType::DNSKEY => 48,
            RecordType::TLSA => 52,
            RecordType::OPENPGPKEY => 61,
            RecordType::CAA => 257,
            RecordType::Unknown(v) => *v,
        }
    }

    /// The record type a wire number denotes.
    pub fn of_code(value: u16) -> (r: RecordType)
        ensures
            r == type_of_code(value),
    {
        if value == 1 {
            RecordType::A
        } else if value == 2 {
            RecordType::NS
        } else if value == 5 {
            RecordType::CNAME
        } else if value == 6 {
            RecordType::SOA
        } else if value == 12 {
            RecordType::PTR
        } else if value == 15 {
            RecordType::MX
        } else if value == 16 {
            RecordType::TXT
        } else if value == 28 {
            RecordType::AAAA
        } else if value == 33 {
            RecordType::SRV
        } else if value == 46 {
            RecordType::RRSIG
        } else if value == 48 {
            RecordType::DNSKEY
        } else if value == 52 {
            RecordType::TLSA
        } else if value == 61 {
            RecordType::OPENPGPKEY
        } else if value == 257 {
            RecordType::CAA
        } else {
            RecordType::Unknown(value)
        }
    }

    /// The mnemonic bytes of a known type, as they appear in store keys.
    pub fn mnemonic(&self) -> (r: Vec<u8>)
        requires
            !(*self is Unknown),
        ensures
            r@ == mnemonic_of(*self),
    {
        let mut out: Vec<u8> = Vec::new();
        match self {
            RecordType::A => {
                out.push(65u8);
            },
            RecordType::AAAA => {
                out.push(65u8);
                out.push(65u8);
                out.push(65u8);
                out.push(65u8);
            },
            RecordType::NS => {
                out.push(78u8);
                out.push(83u8);
            },
            RecordType::CNAME => {
                out.push(67u8);
                out.push(78u8);
                out.push(65u8);
                out.push(77u8);
                out.push(69u8);
            },
            RecordType::PTR => {
                out.push(80u8);
                out.push(84u8);
                out.push(82u8);
            },
            RecordType::SOA => {
                out.push(83u8);
                out.push(79u8);
                out.push(65u8);
            },
            RecordType::MX => {
                out.push(77u8);
                out.push(88u8);
            },
            RecordType::TXT => {
                out.push(84u8);
                out.push(88u8);
                out.push(84u8);
            },
            RecordType::DNSKEY => {
                out.push(68u8);
                out.push(78u8);
                out.push(83u8);
                out.push(75u8);
                out.push(69u8);
                out.push(89u8);
            },
            RecordType::SRV => {
                out.push(83u8);
                out.push(82u8);
                out.push(86u8);
            },
            RecordType::CAA => {
                out.push(67u8);
                out.push(65u8);
                out.push(65u8);
            },
            RecordType::OPENPGPKEY => {
                out.push(79u8);
                out.push(80u8);
                out.push(69u8);
                out.push(78u8);
                out.push(80u8);
                out.push(71u8);
                out.push(80u8);
                out.push(75u8);
                out.push(69u8);
                out.push(89u8);
            },
            RecordType::TLSA => {
                out.push(84u8);
                out.push(76u8);
                out.push(83u8);
                out.push(65u8);
            },
            RecordType::RRSIG => {
                out.push(82u8);
                out.push(82u8);
                out.push(83u8);
                out.push(73u8);
                out.push(71u8);
            },
            RecordType::Unknown(_) => {
            },
        }
        proof {
            assert(out@ =~= mnemonic_of(*self));
        }
        out
    }
}

/// The number under which a record type travels on the wire.
pub open spec fn code_of(rt: RecordType) -> u16 {
    match rt {
        RecordType::A => 1u16,
        RecordType::NS => 2u16,
        RecordType::CNAME => 5u16,
        RecordType::SOA => 6u16,
        RecordType::PTR => 12u16,
        RecordType::MX => 15u16,
        RecordType::TXT => 16u16,
        RecordType::AAAA => 28u16,
        RecordType::SRV => 33u16,
        RecordType::RRSIG => 46u16,
        RecordType::DNSKEY => 48u16,
        RecordType::TLSA => 52u16,
        RecordType::OPENPGPKEY => 61u16,
        RecordType::CAA => 257u16,
        RecordType::Unknown(v) => v,
    }
}

/// The record type a wire number denotes: one of the understood types where
/// the number is theirs, otherwise the number itself.
pub open spec fn type_of_code(value: u16) -> RecordType {
    if value == 1 {
        RecordType::A
    } else if value == 2 {
        RecordType::NS
    } else if value == 5 {
        RecordType::CNAME
    } else if value == 6 {
        RecordType::SOA
    } else if value == 12 {
        RecordType::PTR
    } else if value == 15 {
        RecordType::MX
    } else if value == 16 {
        RecordType::TXT
    } else if value == 28 {
        RecordType::AAAA
    } else if value == 33 {
        RecordType::SRV
    } else if value == 46 {
        RecordType::RRSIG
    } else if value == 48 {
        RecordType::DNSKEY
    } else if value == 52 {
        RecordType::TLSA
    } else if value == 61 {
        RecordType::OPENPGPKEY
    } else if value == 257 {
        RecordType::CAA
    } else {
        RecordType::Unknown(value)
    }
}

/// The tags a CAA record may carry.
#[derive(Debug, Clone, Copy, PartialEq, Eq, Structural)]
pub enum CaaTag {
    Issue,
    Issuewild,
    Iodef,
}

/// One resource record's data, one arm per understood record type. Names are
/// dot-terminated text bytes; addresses are plain integers.
#[derive(Debug, Clone, PartialEq, Eq)]
pub enum ResourceRecord {
    A(u32),
    AAAA(u128),
    NS(Vec<u8>),
    CNAME(Vec<u8>),
    PTR(Vec<u8>),
    SOA {
        mname: Vec<u8>,
        rname: Vec<u8>,
        serial: u32,
        refresh: i32,
        retry: i32,
        expire: i32,
        minimum: u32,
    },
    MX {
        preference: u16,
        exchange: Vec<u8>,
    },
    TXT(Vec<u8>),
    DNSKEY {
        flags: u16,
        protocol: u8,
        algorithm: u8,
        key_data: Vec<u8>,
    },
    SRV {
        priority: u16,
        weight: u16,
        port: u16,
        target: Vec<u8>,
    },
    CAA {
        flags: u8,
        tag: CaaTag,
        value: Vec<u8>,
    },
    OPENPGPKEY(Vec<u8>),
    TLSA {
        usage: u8,
        selector: u8,
        matching_type: u8,
        data: Vec<u8>,
    },
    RRSIG {
        type_covered: u16,
        algorithm: u8,
        labels: u8,
        original_ttl: u32,
        signature_expiration: u32,
        signature_inception: u32,
        key_tag: u16,
        signer_name: Vec<u8>,
        signature: Vec<u8>,
    },
}

/// The record type a piece of rdata belongs to.
pub open spec fn type_of_rr(rr: ResourceRecord) -> RecordType {
    match rr {
        ResourceRecord::A(..) => RecordType::A,
        ResourceRecord::AAAA(..) => RecordType::AAAA,
        ResourceRecord::NS(..) => RecordType::NS,
        ResourceRecord::CNAME(..) => RecordType::CNAME,
        ResourceRecord::PTR(..) => RecordType::PTR,
        ResourceRecord::SOA { .. } => RecordType::SOA,
        ResourceRecord::MX { .. } => RecordType::MX,
        ResourceRecord::TXT(..) => RecordType::TXT,
        ResourceRecord::DNSKEY { .. } => RecordType::DNSKEY,
        ResourceRecord::SRV { .. } => RecordType::SRV,
        ResourceRecord::CAA { .. } => RecordType::CAA,
        ResourceRecord::OPENPGPKEY(..) => RecordType::OPENPGPKEY,
        ResourceRecord::TLSA { .. } => RecordType::TLSA,
        ResourceRecord::RRSIG { .. } => RecordType::RRSIG,
    }
}

impl ResourceRecord {
    /// The record type this rdata belongs to.
    pub fn rr_type(&self) -> (r: RecordType)
        ensures
            r == type_of_rr(*self),
    {
        match self {
            ResourceRecord::A(..) => RecordType::A,
            ResourceRecord::AAAA(..) => RecordType::AAAA,
            ResourceRecord::NS(..) => RecordType::NS,
            ResourceRecord::CNAME(..) => RecordType::CNAME,
            ResourceRecord::PTR(..) => RecordType::PTR,
            ResourceRecord::SOA { .. } => RecordType::SOA,
            ResourceRecord::MX { .. } => RecordType::MX,
            ResourceRecord::TXT(..) => RecordType::TXT,
            ResourceRecord::DNSKEY { .. } => RecordType::DNSKEY,
            ResourceRecord::SRV { .. } => RecordType::SRV,
            ResourceRecord::CAA { .. } => RecordType::CAA,
            ResourceRecord::OPENPGPKEY(..) => RecordType::OPENPGPKEY,
            ResourceRecord::TLSA { .. } => RecordType::TLSA,
            ResourceRecord::RRSIG { .. } => RecordType::RRSIG,
        }
    }
}

/// The zone-key flag bit of a DNSKEY flags field.
pub fn dnskey_zone_key(flags: u16) -> (r: bool)
    ensures
        r == (flags & 256u16 != 0),
{
    flags & 256u16 != 0
}

/// The secure-entry-point flag bit of a DNSKEY flags field.
pub fn dnskey_secure_entry_point(flags: u16) -> (r: bool)
    ensures
        r == (flags & 1u16 != 0),
{
    flags & 1u16 != 0
}

/// The revoke flag bit of a DNSKEY flags field.
pub fn dnskey_revoke(flags: u16) -> (r: bool)
    ensures
        r == (flags & 128u16 != 0),
{
    flags & 128u16 != 0
}

/// Whether a DNSKEY protocol field holds the only value the RFC allows.
pub fn dnskey_protocol_valid(protocol: u8) -> (r: bool)
    ensures
        r == (protocol == 3),
{
    protocol == 3
}

/// The issuer-critical flag bit of a CAA flags field.
pub fn caa_issuer_critical(flags: u8) -> (r: bool)
    ensures
        r == (flags & 128u8 != 0),
{
    flags & 128u8 != 0
}

/// An RRset as persisted in the store: the key carries the name, the value
/// carries the type, the shared TTL and the records.
#[derive(Debug, Clone, PartialEq, Eq)]
pub struct StoreEntry {
    pub rr_type: RecordType,
    pub ttl: u32,
    pub rr_set: Vec<ResourceRecord>,
}

impl StoreEntry {
    /// A well-formed entry has a known type that every record matches.
    pub open spec fn wf(&self) -> bool {
        &&& !(self.rr_type is Unknown)
        &&& forall|i: int|
            0 <= i < self.rr_set@.len() ==> type_of_rr(#[trigger] self.rr_set@[i]) == self.rr_type
    }

    /// Checks well-formedness of data that came in from outside.
    pub fn check(&self) -> (r: bool)
        ensures
            r == self.wf(),
    {
        if !self.rr_type.is_known() {
            return false;
        }
        let mut i: usize = 0;
        while i < self.rr_set.len()
            invariant
                0 <= i <= self.rr_set@.len(),
                forall|k: int|
                    0 <= k < i ==> type_of_rr(#[trigger] self.rr_set@[k]) == self.rr_type,
            decreases self.rr_set@.len() - i,
        {
            let t = self.rr_set[i].rr_type();
            if t != self.rr_type {
                return false;
            }
            i += 1;
        }
        true
    }
}

/// A record as it goes out on the wire: an owner name, a TTL and rdata.
#[derive(Debug, Clone, PartialEq, Eq)]
pub struct Record {
    pub name: DnsName,
    pub ttl: u32,
    pub rdata: ResourceRecord,
}

} // verus!
