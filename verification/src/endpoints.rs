//! The addresses of the three calls that a run makes.

use vstd::prelude::*;

verus! {

/// The address of the public-address lookup, which answers in JSON.
pub open spec fn lookup_url() -> Seq<char> {
    "https://api.ipify.org?format=json"@
}

/// The address that lists the address records of the zone `zone_id`.
pub open spec fn listing_url(zone_id: Seq<char>) -> Seq<char> {
    "https://api.cloudflare.com/client/v4/zones/"@ + zone_id + "/dns_records/?type=A"@
}

/// The address of the record `record_id` in the zone `zone_id`.
pub open spec fn update_url(zone_id: Seq<char>, record_id: Seq<char>) -> Seq<char> {
    "https://api.cloudflare.com/client/v4/zones/"@ + zone_id + "/dns_records/"@ + record_id
}

/// The address of the public-address lookup.
pub fn ip_lookup_url() -> (res: String)
    ensures
        res@ == lookup_url(),
{
    String::from_str("https://api.ipify.org?format=json")
}

/// The address that lists the address records of a zone.
pub fn records_url(zone_id: &str) -> (res: String)
    ensures
        res@ == listing_url(zone_id@),
{
    let mut url = String::from_str("https://api.cloudflare.com/client/v4/zones/");
    url.append(zone_id);
    url.append("/dns_records/?type=A");
    url
}

/// The address to which the update of one record is sent.
pub fn record_url(zone_id: &str, record_id: &str) -> (res: String)
    ensures
        res@ == update_url(zone_id@, record_id@),
{
    let mut url = String::from_str("https://api.cloudflare.com/client/v4/zones/");
    url.append(zone_id);
    url.append("/dns_records/");
    url.append(record_id);
    url
}

} // verus!
