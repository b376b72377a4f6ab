//! The shapes exchanged with the address service and the DNS provider, and the
//! rules that relate a configured subdomain to a record of the zone.

use crate::text::same_text;
use vstd::prelude::*;

verus! {

/// The answer of the public-address lookup.
#[derive(Debug, Clone, PartialEq, Eq)]
pub struct IpifyResponse {
    pub ip: String,
}

/// One address record as the provider lists it.
#[derive(Debug, Clone, PartialEq, Eq)]
pub struct DnsRecord {
    pub content: String,
    pub id: String,
    pub name: String,
    pub ttl: u32,
    pub proxied: bool,
}

/// The provider's answer to a listing of the zone's address records.
#[derive(Debug, Clone, PartialEq, Eq)]
pub struct DnsRecordsListResponse {
    pub result: Vec<DnsRecord>,
}

/// The body of an update of one record.
#[derive(Debug, Clone, PartialEq, Eq)]
pub struct UpdateDnsRecord {
    pub record_type: String,
    pub name: String,
    pub content: String,
    pub ttl: u32,
    pub proxied: bool,
}

/// What a `DnsRecord` holds.
pub struct DnsRecordView {
    pub content: Seq<char>,
    pub id: Seq<char>,
    pub name: Seq<char>,
    pub ttl: u32,
    pub proxied: bool,
}

/// What an `UpdateDnsRecord` holds.
pub struct UpdateDnsRecordView {
    pub record_type: Seq<char>,
    pub name: Seq<char>,
    pub content: Seq<char>,
    pub ttl: u32,
    pub proxied: bool,
}

impl View for DnsRecord {
    type V = DnsRecordView;

    open spec fn view(&self) -> DnsRecordView {
        DnsRecordView {
            content: self.content@,
            id: self.id@,
            name: self.name@,
            ttl: self.ttl,
            proxied: self.proxied,
        }
    }
}

impl View for UpdateDnsRecord {
    type V = UpdateDnsRecordView;

    open spec fn view(&self) -> UpdateDnsRecordView {
        UpdateDnsRecordView {
            record_type: self.record_type@,
            name: self.name@,
            content: self.content@,
            ttl: self.ttl,
            proxied: self.proxied,
        }
    }
}

/// What each record of `v` holds, in order.
pub open spec fn record_views(v: Seq<DnsRecord>) -> Seq<DnsRecordView> {
    v.map_values(|r: DnsRecord| r@)
}

/// The fully-qualified name of a configured subdomain: the wildcard label `*`
/// gives `*.` followed by the base domain, any other label gives the label, a
/// dot and the base domain.
pub open spec fn fqdn(subdomain: Seq<char>, domain: Seq<char>) -> Seq<char> {
    if subdomain == seq!['*'] {
        seq!['*', '.'] + domain
    } else {
        subdomain + seq!['.'] + domain
    }
}

/// The first record, in the provider's order, whose name is exactly `name`.
pub open spec fn find(records: Seq<DnsRecordView>, name: Seq<char>) -> Option<DnsRecordView>
    decreases records.len(),
{
    if records.len() == 0 {
        None
    } else if records[0].name == name {
        Some(records[0])
    } else {
        find(records.drop_first(), name)
    }
}

/// The update that points `record` at `ip` under `name`: type `A`, the record's
/// own time to live and proxy flag.
pub open spec fn update_of(record: DnsRecordView, name: Seq<char>, ip: Seq<char>)
    -> UpdateDnsRecordView {
    UpdateDnsRecordView {
        record_type: seq!['A'],
        name: name,
        content: ip,
        ttl: record.ttl,
        proxied: record.proxied,
    }
}

/// Where no record carries the name, `find` gives none.
pub proof fn lemma_find_none(records: Seq<DnsRecordView>, name: Seq<char>)
    requires
        forall|i: int| 0 <= i < records.len() ==> records[i].name != name,
    ensures
        find(records, name) is None,
    decreases records.len(),
{
    if records.len() > 0 {
        let rest = records.drop_first();
        assert forall|i: int| 0 <= i < rest.len() implies rest[i].name != name by {
            assert(rest[i] == records[i + 1]);
        }
        lemma_find_none(rest, name);
    }
}

/// Where `i` is the first position whose record carries the name, `find` gives
/// the record at `i`.
pub proof fn lemma_find_first(records: Seq<DnsRecordView>, name: Seq<char>, i: int)
    requires
        0 <= i < records.len(),
        records[i].name == name,
        forall|j: int| 0 <= j < i ==> records[j].name != name,
    ensures
        find(records, name) == Some(records[i]),
    decreases records.len(),
{
    if i > 0 {
        let rest = records.drop_first();
        assert(rest[i - 1] == records[i]);
        assert forall|j: int| 0 <= j < i - 1 implies rest[j].name != name by {
            assert(rest[j] == records[j + 1]);
        }
        lemma_find_first(rest, name, i - 1);
    }
}

/// Builds the fully-qualified name of `subdomain` under `domain`.
pub fn full_domain(subdomain: &str, domain: &str) -> (res: String)
    ensures
        res@ == fqdn(subdomain@, domain@),
{
    proof {
        reveal_strlit("*");
        reveal_strlit("*.");
        reveal_strlit(".");
    }
    assert("*"@ =~= seq!['*']);
    assert("*."@ =~= seq!['*', '.']);
    assert("."@ =~= seq!['.']);
    if same_text(subdomain, "*") {
        let mut name = String::from_str("*.");
        name.append(domain);
        name
    } else {
        let mut name = String::from_str(subdomain);
        name.append(".");
        name.append(domain);
        name
    }
}

/// Finds the first record whose name is exactly `name`: case matters, and a
/// later record of the same name is never returned.
pub fn find_record<'a>(records: &'a Vec<DnsRecord>, name: &str) -> (res: Option<&'a DnsRecord>)
    ensures
        res matches Some(record) ==> find(record_views(records@), name@) == Some(record@),
        res is None ==> find(record_views(records@), name@) is None,
{
    let ghost all = record_views(records@);
    let mut i: usize = 0;
    assert(all.skip(0) == all);
    while i < records.len()
        invariant
            i <= records.len(),
            all == record_views(records@),
            find(all, name@) == find(all.skip(i as int), name@),
        decreases records.len() - i,
    {
        let record = &records[i];
        assert(all.skip(i as int)[0] == record@);
        if same_text(record.name.as_str(), name) {
            return Some(record);
        }
        assert(all.skip(i as int).drop_first() == all.skip(i + 1));
        i = i + 1;
    }
    None
}

/// Builds the update that points `record` at `ip` under `name`.
pub fn make_update(record: &DnsRecord, name: &str, ip: &str) -> (res: UpdateDnsRecord)
    ensures
        res@ == update_of(record@, name@, ip@),
{
    proof {
        reveal_strlit("A");
    }
    assert("A"@ =~= seq!['A']);
    UpdateDnsRecord {
        record_type: String::from_str("A"),
        name: String::from_str(name),
        content: String::from_str(ip),
        ttl: record.ttl,
        proxied: record.proxied,
    }
}

} // verus!
