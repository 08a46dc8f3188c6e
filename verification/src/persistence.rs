//! The store client's verified half: key formatting and the interpretation
//! of what a lookup returned.
//!
//! A lookup always reads two keys in one round trip — the definitive key and
//! the wildcard key — and combines the two values into a `QueryResponse`.
//! The unverified rim performs the read and hands the two values in as plain
//! `StoreValue`s; everything after that is verified.

use vstd::prelude::*;

use crate::name::{name_text, lower_name, DnsName};
use crate::resource_record::{mnemonic_of, RecordType, StoreEntry};
use crate::{PektinError, PektinResult};

verus! {

/// What a single store key returned, after the rim has classified the raw
/// value: absent, a string that parsed as an entry, a string that was not
/// valid JSON, or a value of a kind that is not a string at all.
#[derive(Debug, Clone, PartialEq, Eq)]
pub enum StoreValue {
    Missing,
    Entry(StoreEntry),
    Unparseable,
    NotAString,
}

/// The combined result of one dual-key lookup.
#[derive(Debug, Clone, PartialEq, Eq)]
pub enum QueryResponse {
    Empty,
    Definitive(StoreEntry),
    Wildcard(StoreEntry),
    Both { definitive: StoreEntry, wildcard: StoreEntry },
}

/// The key under which an RRset is stored:
/// `<lowercased-name>:<rr-type-mnemonic>`.
pub open spec fn rrset_key_spec(name: Seq<Seq<u8>>, rt: RecordType) -> Seq<u8> {
    name_text(lower_name(name)) + seq![58u8] + mnemonic_of(rt)
}

/// The key under which the RRSIG records covering a type are stored:
/// `<lowercased-name>:RRSIG:<covered-type-mnemonic>`.
pub open spec fn rrsig_key_spec(name: Seq<Seq<u8>>, covered: RecordType) -> Seq<u8> {
    name_text(lower_name(name)) + seq![58u8] + mnemonic_of(RecordType::RRSIG) + seq![58u8]
        + mnemonic_of(covered)
}

/// Formats the RRset key for a name and type.
pub fn rrset_key(name: &DnsName, rt: RecordType) -> (r: Vec<u8>)
    requires
        !(rt is Unknown),
    ensures
        r@ == rrset_key_spec(name@, rt),
{
    let mut out = name.canonical_text();
    out.push(58u8);
    let mut m = rt.mnemonic();
    out.append(&mut m);
    proof {
        assert(out@ =~= rrset_key_spec(name@, rt));
    }
    out
}

/// Formats the RRSIG key for a name and covered type.
pub fn rrsig_key(name: &DnsName, covered: RecordType) -> (r: Vec<u8>)
    requires
        !(covered is Unknown),
    ensures
        r@ == rrsig_key_spec(name@, covered),
{
    let mut out = name.canonical_text();
    out.push(58u8);
    let mut sig = RecordType::RRSIG.mnemonic();
    out.append(&mut sig);
    out.push(58u8);
    let mut m = covered.mnemonic();
    out.append(&mut m);
    proof {
        assert(out@ =~= rrsig_key_spec(name@, covered));
    }
    out
}

/// How the two values of a dual-key lookup combine. The order of the checks
/// mirrors the store client: a non-string value where the other key yielded a
/// string is caught before that string is parsed; the definitive value is
/// examined before the wildcard one; a malformed entry is data the server
/// refuses to serve.
pub open spec fn rrset_response(def: StoreValue, wild: StoreValue) -> PektinResult<
    QueryResponse,
> {
    match (def, wild) {
        (StoreValue::NotAString, _) => Err(PektinError::WickedDbValue),
        (_, StoreValue::NotAString) => Err(PektinError::WickedDbValue),
        (StoreValue::Unparseable, _) => Err(PektinError::JsonError),
        (StoreValue::Entry(d), StoreValue::Unparseable) => if !d.wf() {
            Err(PektinError::InvalidDbData)
        } else {
            Err(PektinError::JsonError)
        },
        (StoreValue::Missing, StoreValue::Unparseable) => Err(PektinError::JsonError),
        (StoreValue::Missing, StoreValue::Missing) => Ok(QueryResponse::Empty),
        (StoreValue::Missing, StoreValue::Entry(w)) => if w.wf() {
            Ok(QueryResponse::Wildcard(w))
        } else {
            Err(PektinError::InvalidDbData)
        },
        (StoreValue::Entry(d), StoreValue::Missing) => if d.wf() {
            Ok(QueryResponse::Definitive(d))
        } else {
            Err(PektinError::InvalidDbData)
        },
        (StoreValue::Entry(d), StoreValue::Entry(w)) => if !d.wf() || !w.wf() {
            Err(PektinError::InvalidDbData)
        } else {
            Ok(QueryResponse::Both { definitive: d, wildcard: w })
        },
    }
}

/// Combines the definitive and the wildcard value of one lookup into a
/// `QueryResponse`, or the error under which the lookup is refused.
pub fn get_rrset(def: StoreValue, wild: StoreValue) -> (r: PektinResult<QueryResponse>)
    ensures
        r == rrset_response(def, wild),
{
    match (def, wild) {
        (StoreValue::NotAString, _) => Err(PektinError::WickedDbValue),
        (_, StoreValue::NotAString) => Err(PektinError::WickedDbValue),
        (StoreValue::Unparseable, _) => Err(PektinError::JsonError),
        (StoreValue::Entry(d), StoreValue::Unparseable) => if !d.check() {
            Err(PektinError::InvalidDbData)
        } else {
            Err(PektinError::JsonError)
        },
        (StoreValue::Missing, StoreValue::Unparseable) => Err(PektinError::JsonError),
        (StoreValue::Missing, StoreValue::Missing) => Ok(QueryResponse::Empty),
        (StoreValue::Missing, StoreValue::Entry(w)) => if w.check() {
            Ok(QueryResponse::Wildcard(w))
        } else {
            Err(PektinError::InvalidDbData)
        },
        (StoreValue::Entry(d), StoreValue::Missing) => if d.check() {
            Ok(QueryResponse::Definitive(d))
        } else {
            Err(PektinError::InvalidDbData)
        },
        (StoreValue::Entry(d), StoreValue::Entry(w)) => if !d.check() || !w.check() {
            Err(PektinError::InvalidDbData)
        } else {
            Ok(QueryResponse::Both { definitive: d, wildcard: w })
        },
    }
}

} // verus!
