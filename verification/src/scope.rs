//! The scope resolver: extracts the owning project and the zone and region
//! facts from a resource's canonical self-link.
//!
//! The provider lays self-link paths out in a fixed shape: path segment 3 is
//! always the project id, and, when the path encodes a zonal or regional
//! resource, segment 4 carries the scope marker and segment 5 the zone or
//! region name. The region of a zone is derived from the zone name itself.

use vstd::prelude::*;
use vstd::string::StringExecFns;

use crate::errors::LroError;
use crate::strutil::{region_of_zone, region_of_zone_str, str_eq};

verus! {

/// What the outside URL parser yields for a given input: the slash-separated
/// path segments of the parsed URL, or nothing when the input is not an
/// absolute URL or the URL cannot be a base. A fixed function of the input
/// alone.
pub uninterp spec fn url_path_segments(s: Seq<char>) -> Option<Seq<Seq<char>>>;

/// Relies on url::Url::parse and url::Url::path_segments: parses an absolute
/// URL and hands back its slash-separated path segments; None when parsing
/// fails or the URL cannot be a base.
#[verifier::external_body]
pub(crate) fn parse_path_segments(s: &str) -> (r: Option<Vec<String>>)
    ensures
        match r {
            Some(v) => url_path_segments(s@) matches Some(ss) && v@.len() == ss.len()
                && (forall|i: int| 0 <= i < v@.len() ==> (#[trigger] v@[i])@ == ss[i]),
            None => url_path_segments(s@) is None,
        },
{
    match url::Url::parse(s) {
        Ok(u) => match u.path_segments() {
            Some(parts) => Some(parts.map(|p| p.to_string()).collect()),
            None => None,
        },
        Err(_) => None,
    }
}

/// The scoping facts extracted from a self-link: the owning project, and the
/// zone and region names when the link is scoped to them.
#[derive(Clone, Debug, PartialEq)]
pub struct ScopeInfo {
    pub project: String,
    pub zone: Option<String>,
    pub region: Option<String>,
}

/// Segment lists that encode a zonal resource: the marker `zones` at index 4
/// and the zone name at index 5.
pub open spec fn zonal_segments(ss: Seq<Seq<char>>) -> bool {
    ss.len() >= 6 && ss[4] == "zones"@
}

/// Segment lists that encode a regional resource: the marker `regions` at
/// index 4 and the region name at index 5.
pub open spec fn regional_segments(ss: Seq<Seq<char>>) -> bool {
    ss.len() >= 6 && ss[4] == "regions"@
}

/// What resolution yields on a segment list of at least four segments: the
/// project at index 3; for zonal paths the zone at index 5 and the region it
/// implies; for regional paths the region at index 5; for all others neither
/// a zone nor a region.
pub open spec fn resolved_scope(ss: Seq<Seq<char>>, info: ScopeInfo) -> bool {
    &&& info.project@ == ss[3]
    &&& if zonal_segments(ss) {
        &&& info.zone matches Some(z) && z@ == ss[5]
        &&& info.region matches Some(g) && g@ == region_of_zone(ss[5])
    } else if regional_segments(ss) {
        &&& info.zone is None
        &&& info.region matches Some(g) && g@ == ss[5]
    } else {
        &&& info.zone is None
        &&& info.region is None
    }
}

/// The character sequences behind a list of strings.
pub open spec fn seg_views(segs: Seq<String>) -> Seq<Seq<char>> {
    Seq::new(segs.len(), |i: int| segs[i]@)
}

/// Extracts the scoping facts from a path-segment list. Fails exactly when
/// fewer than four segments are given.
pub fn resolve_segments(segs: &Vec<String>) -> (r: Result<ScopeInfo, LroError>)
    ensures
        segs@.len() >= 4 ==> (r matches Ok(info) && resolved_scope(seg_views(segs@), info)),
        segs@.len() < 4 ==> r == Err::<ScopeInfo, LroError>(LroError::MalformedUrl),
{
    if segs.len() < 4 {
        return Err(LroError::MalformedUrl);
    }
    let project = segs[3].clone();
    if segs.len() >= 6 && str_eq(segs[4].as_str(), "zones") {
        let zone = segs[5].clone();
        let region = region_of_zone_str(segs[5].as_str());
        Ok(ScopeInfo { project, zone: Some(zone), region: Some(region) })
    } else if segs.len() >= 6 && str_eq(segs[4].as_str(), "regions") {
        let region = segs[5].clone();
        Ok(ScopeInfo { project, zone: None, region: Some(region) })
    } else {
        Ok(ScopeInfo { project, zone: None, region: None })
    }
}

/// Resolves a self-link into its scoping facts. Fails with `MalformedUrl`
/// exactly when the link does not parse as a URL, cannot be a base, or holds
/// fewer than four path segments.
pub fn resolve(self_link: &str) -> (r: Result<ScopeInfo, LroError>)
    ensures
        r matches Ok(info) ==> url_path_segments(self_link@) matches Some(ss) && ss.len() >= 4
            && resolved_scope(ss, info),
        r matches Err(e) ==> e == LroError::MalformedUrl && match url_path_segments(self_link@) {
            Some(ss) => ss.len() < 4,
            None => true,
        },
{
    match parse_path_segments(self_link) {
        Some(segs) => {
            proof {
                assert(seg_views(segs@) =~= url_path_segments(self_link@)->Some_0);
            }
            resolve_segments(&segs)
        }
        None => Err(LroError::MalformedUrl),
    }
}

/// Law: resolving a well-formed zonal segment list yields a non-empty zone —
/// the segment at index 5 — and a region equal to that zone's first two
/// hyphen-separated tokens rejoined.
pub proof fn lemma_zonal_resolution(ss: Seq<Seq<char>>, info: ScopeInfo)
    requires
        zonal_segments(ss),
        ss[5].len() > 0,
        resolved_scope(ss, info),
    ensures
        info.zone matches Some(z) && z@ == ss[5] && z@.len() > 0,
        info.region matches Some(g) && g@ == region_of_zone(ss[5]),
        info.project@ == ss[3],
{
}

/// Law: resolving a segment list that encodes neither a zonal nor a regional
/// resource reports no zone and no region.
pub proof fn lemma_global_resolution(ss: Seq<Seq<char>>, info: ScopeInfo)
    requires
        ss.len() >= 4,
        !zonal_segments(ss),
        !regional_segments(ss),
        resolved_scope(ss, info),
    ensures
        info.zone is None,
        info.region is None,
        info.project@ == ss[3],
{
}

} // verus!
