//! Zone bootstrap: paging through the backend's zone listing until the
//! managed zone is found, and the forwarding-zone creation issued when it
//! is not.
//!
//! The paging loop itself is driven outside the crate; each page's
//! decision — found, ask the next page, or create the zone — is taken
//! here, so a run that finds the zone provably never asks for a page past
//! it and never issues a create call.

use crate::encoding::str_eq;
use crate::technitium::models::CreateZonePayload;
use crate::technitium::models::ListZonesPayload;
use crate::technitium::models::ListZonesResponse;
use crate::technitium::models::Protocol;
use crate::technitium::models::ZoneInfo;
use crate::technitium::models::ZoneType;
use vstd::prelude::*;
use vstd::string::*;

verus! {

/// How many zones each listing page asks for.
pub const ZONES_PER_PAGE: u32 = 100;

/// Whether a listing page carries a zone of this name.
pub open spec fn zone_listed(zones: Seq<ZoneInfo>, zone: Seq<char>) -> bool {
    exists|i: int| 0 <= i < zones.len() && zones[i].name@ == zone
}

/// What to do after one page of the zone listing.
#[derive(Debug, Clone, Copy, PartialEq, Eq)]
pub enum BootstrapStep {
    /// The managed zone exists; stop paging, serve traffic.
    Found,
    /// Not on this page and more pages remain: ask for this one.
    NextPage(u32),
    /// All pages exhausted: the zone must be created.
    CreateZone,
}

/// The listing payload for one page of the managed zone's listing.
pub fn zone_listing_payload(zone: String, page_number: u32) -> (r: ListZonesPayload)
    ensures
        r.zone == zone,
        r.page_number == Some(page_number),
        r.zones_per_page == Some(ZONES_PER_PAGE),
{
    ListZonesPayload { zone, page_number: Some(page_number), zones_per_page: Some(ZONES_PER_PAGE) }
}

/// The creation payload for the managed zone when it is absent: a
/// forwarding zone pointed at this server, resolving over UDP, with
/// DNSSEC validation on.
pub fn default_zone_payload(zone: String) -> (r: CreateZonePayload)
    ensures
        r.zone == zone,
        r.zone_type == ZoneType::Forwarder,
        r.protocol == Some(Protocol::Udp),
        r.forwarder matches Some(f) && f@ == "this-server"@,
        r.dnssec_validation == Some(true),
{
    CreateZonePayload {
        zone,
        zone_type: ZoneType::Forwarder,
        protocol: Some(Protocol::Udp),
        forwarder: Some(String::from_str("this-server")),
        dnssec_validation: Some(true),
    }
}

/// Whether this page of the listing carries the managed zone.
pub fn zone_in_page(zones: &Vec<ZoneInfo>, zone: &str) -> (r: bool)
    ensures
        r == zone_listed(zones@, zone@),
{
    for i in 0..zones.len()
        invariant
            forall|k: int| 0 <= k < i ==> zones@[k].name@ != zone@,
    {
        if str_eq(zones[i].name.as_str(), zone) {
            return true;
        }
    }
    false
}

/// Decides what one page of the listing means for bootstrap: stop when
/// the zone is on it, ask for the next page while pages remain, and fall
/// back to creating the zone only when every page has been seen.
pub fn bootstrap_step(zone: &str, page_number: u32, resp: &ListZonesResponse) -> (r: BootstrapStep)
    ensures
        zone_listed(resp.zones@, zone@) ==> r == BootstrapStep::Found,
        !zone_listed(resp.zones@, zone@) && page_number < resp.total_pages ==> r
            == BootstrapStep::NextPage((page_number + 1) as u32),
        !zone_listed(resp.zones@, zone@) && page_number >= resp.total_pages ==> r
            == BootstrapStep::CreateZone,
{
    if zone_in_page(&resp.zones, zone) {
        BootstrapStep::Found
    } else if page_number < resp.total_pages {
        BootstrapStep::NextPage(page_number + 1)
    } else {
        BootstrapStep::CreateZone
    }
}

} // verus!
