//! The operation model: a long-running operation in one of three scopes,
//! and the composition of the provider's wait endpoints for it.

use vstd::prelude::*;
use vstd::string::StringExecFns;

use crate::errors::LroError;
use crate::scope::{parse_path_segments, url_path_segments};
use crate::strutil::{region_of_zone, region_of_zone_str};

verus! {

/// The status of a long-running operation. It is monotonically
/// non-decreasing over the operation's lifetime; `Done` is terminal.
#[derive(Clone, Copy, Debug, PartialEq, Eq, Structural)]
pub enum OperationStatus {
    Pending,
    Running,
    Done,
}

/// The methods a provider offers on an operation resource; left to library
/// users to implement over their own transport.
pub trait OperationMethod {
    fn delete() -> Result<(), LroError>;

    fn get() -> Result<Operation, LroError>;

    fn list() -> Result<Vec<Operation>, LroError>;

    fn wait() -> Result<Operation, LroError>;
}

/// A single asynchronous mutation requested of the provider, as the provider
/// reports it. At most one of `zone` and `region` is present; both absent
/// means the operation is global. The project, zone and region facts are
/// derived from `self_link`, never stored separately.
#[derive(Clone, Debug, PartialEq)]
pub struct Operation {
    pub kind: String,
    pub id: String,
    pub name: String,
    pub zone: Option<String>,
    pub region: Option<String>,
    pub client_operation_id: Option<String>,
    pub operation_type: String,
    pub operation_group_id: Option<String>,
    pub target_link: String,
    pub target_id: String,
    pub status: OperationStatus,
    pub user: String,
    pub progress: u32,
    pub insert_time: String,
    pub start_time: String,
    pub status_message: Option<String>,
    pub end_time: Option<String>,
    pub self_link: String,
    pub description: Option<String>,
}

/// The provider's fixed API root for operation endpoints.
pub open spec fn spec_api_root() -> Seq<char> {
    "https://compute.googleapis.com/compute/v1"@
}

/// The provider's fixed API root for resource creation endpoints.
pub open spec fn spec_endpoint_root() -> Seq<char> {
    "https://www.googleapis.com/compute/v1"@
}

/// The zonal wait endpoint for an operation.
pub open spec fn spec_zonal_wait_url(project: Seq<char>, zone: Seq<char>, id: Seq<char>) -> Seq<
    char,
> {
    spec_api_root() + "/projects/"@ + project + "/zones/"@ + zone + "/operations/"@ + id + "/wait"@
}

/// The regional wait endpoint for an operation.
pub open spec fn spec_regional_wait_url(project: Seq<char>, region: Seq<char>, id: Seq<char>) -> Seq<
    char,
> {
    spec_api_root() + "/projects/"@ + project + "/regions/"@ + region + "/operations/"@ + id
        + "/wait"@
}

/// The global wait endpoint for an operation.
pub open spec fn spec_global_wait_url(project: Seq<char>, id: Seq<char>) -> Seq<char> {
    spec_api_root() + "/projects/"@ + project + "/global/operations/"@ + id + "/wait"@
}

/// The zonal operation resource URL, without the wait suffix.
pub open spec fn spec_zone_url(project: Seq<char>, zone: Seq<char>, id: Seq<char>) -> Seq<char> {
    spec_api_root() + "/projects/"@ + project + "/zones/"@ + zone + "/operations/"@ + id
}

/// The provider's fixed API root for operation endpoints.
pub fn api_root() -> (r: &'static str)
    ensures
        r@ == spec_api_root(),
{
    "https://compute.googleapis.com/compute/v1"
}

/// The provider's fixed API root for resource creation endpoints.
pub fn endpoint_root() -> (r: &'static str)
    ensures
        r@ == spec_endpoint_root(),
{
    "https://www.googleapis.com/compute/v1"
}

/// The primary wait-URL strategy: the operation's own self-link with
/// `/wait` appended. Equivalent to the templated endpoints whenever the
/// self-link is the canonical operation URL.
pub fn build_wait_url(op: &Operation) -> (r: String)
    ensures
        r@ == op.self_link@ + "/wait"@,
{
    let mut u = op.self_link.clone();
    u.append("/wait");
    u
}

impl Operation {
    /// Scope cardinality: a well-formed operation is zonal, regional or
    /// global, never zonal and regional at once; its progress is advisory,
    /// within 0 to 100; an end time is recorded only once it is terminal.
    pub open spec fn wf(self) -> bool {
        &&& !(self.zone is Some && self.region is Some)
        &&& self.progress <= 100
        &&& (self.end_time is Some ==> self.status == OperationStatus::Done)
    }

    /// Whether the snapshot satisfies the well-formedness invariant; lets a
    /// caller validate an operation decoded from the wire.
    pub fn is_well_formed(&self) -> (r: bool)
        ensures
            r == self.wf(),
    {
        !(self.zone.is_some() && self.region.is_some()) && self.progress <= 100 && (
        !self.end_time.is_some() || self.status == OperationStatus::Done)
    }

    /// Whether the operation has reached its terminal status.
    pub fn is_done(&self) -> (r: bool)
        ensures
            r == (self.status == OperationStatus::Done),
    {
        self.status == OperationStatus::Done
    }

    /// The templated zonal wait endpoint, from the project and zone embedded
    /// in the self-link. Fails with `MalformedUrl` exactly when the
    /// self-link does not parse or holds fewer than six path segments.
    pub fn zonal_wait_url(&self) -> (r: Result<String, LroError>)
        ensures
            r matches Ok(u) ==> (url_path_segments(self.self_link@) matches Some(ss)
                && ss.len() >= 6 && u@ == spec_zonal_wait_url(ss[3], ss[5], self.id@)),
            r matches Err(e) ==> e == LroError::MalformedUrl && match url_path_segments(
                self.self_link@,
            ) {
                Some(ss) => ss.len() < 6,
                None => true,
            },
    {
        let segs = match parse_path_segments(self.self_link.as_str()) {
            Some(s) => s,
            None => { return Err(LroError::MalformedUrl) },
        };
        if segs.len() < 6 {
            return Err(LroError::MalformedUrl);
        }
        let mut u = api_root().to_owned();
        u.append("/projects/");
        u.append(segs[3].as_str());
        u.append("/zones/");
        u.append(segs[5].as_str());
        u.append("/operations/");
        u.append(self.id.as_str());
        u.append("/wait");
        Ok(u)
    }

    /// The templated regional wait endpoint: the region is derived from the
    /// zone-position segment of the self-link. Fails with `MalformedUrl`
    /// exactly when the self-link does not parse or holds fewer than six
    /// path segments.
    pub fn regional_wait_url(&self) -> (r: Result<String, LroError>)
        ensures
            r matches Ok(u) ==> (url_path_segments(self.self_link@) matches Some(ss)
                && ss.len() >= 6 && u@ == spec_regional_wait_url(
                ss[3],
                region_of_zone(ss[5]),
                self.id@,
            )),
            r matches Err(e) ==> e == LroError::MalformedUrl && match url_path_segments(
                self.self_link@,
            ) {
                Some(ss) => ss.len() < 6,
                None => true,
            },
    {
        let segs = match parse_path_segments(self.self_link.as_str()) {
            Some(s) => s,
            None => { return Err(LroError::MalformedUrl) },
        };
        if segs.len() < 6 {
            return Err(LroError::MalformedUrl);
        }
        let region = region_of_zone_str(segs[5].as_str());
        let mut u = api_root().to_owned();
        u.append("/projects/");
        u.append(segs[3].as_str());
        u.append("/regions/");
        u.append(region.as_str());
        u.append("/operations/");
        u.append(self.id.as_str());
        u.append("/wait");
        Ok(u)
    }

    /// The templated global wait endpoint, from the project embedded in the
    /// self-link. Fails with `MalformedUrl` exactly when the self-link does
    /// not parse or holds fewer than four path segments.
    pub fn global_wait_url(&self) -> (r: Result<String, LroError>)
        ensures
            r matches Ok(u) ==> (url_path_segments(self.self_link@) matches Some(ss)
                && ss.len() >= 4 && u@ == spec_global_wait_url(ss[3], self.id@)),
            r matches Err(e) ==> e == LroError::MalformedUrl && match url_path_segments(
                self.self_link@,
            ) {
                Some(ss) => ss.len() < 4,
                None => true,
            },
    {
        let segs = match parse_path_segments(self.self_link.as_str()) {
            Some(s) => s,
            None => { return Err(LroError::MalformedUrl) },
        };
        if segs.len() < 4 {
            return Err(LroError::MalformedUrl);
        }
        let mut u = api_root().to_owned();
        u.append("/projects/");
        u.append(segs[3].as_str());
        u.append("/global/operations/");
        u.append(self.id.as_str());
        u.append("/wait");
        Ok(u)
    }

    /// The zonal operation resource URL, without the wait suffix. Fails with
    /// `MalformedUrl` exactly when the self-link does not parse or holds
    /// fewer than six path segments.
    pub fn zone_url(&self) -> (r: Result<String, LroError>)
        ensures
            r matches Ok(u) ==> (url_path_segments(self.self_link@) matches Some(ss)
                && ss.len() >= 6 && u@ == spec_zone_url(ss[3], ss[5], self.id@)),
            r matches Err(e) ==> e == LroError::MalformedUrl && match url_path_segments(
                self.self_link@,
            ) {
                Some(ss) => ss.len() < 6,
                None => true,
            },
    {
        let segs = match parse_path_segments(self.self_link.as_str()) {
            Some(s) => s,
            None => { return Err(LroError::MalformedUrl) },
        };
        if segs.len() < 6 {
            return Err(LroError::MalformedUrl);
        }
        let mut u = api_root().to_owned();
        u.append("/projects/");
        u.append(segs[3].as_str());
        u.append("/zones/");
        u.append(segs[5].as_str());
        u.append("/operations/");
        u.append(self.id.as_str());
        Ok(u)
    }

    /// The templated wait endpoint chosen by the scope fields present on the
    /// operation: zonal when a zone is recorded, else regional when a region
    /// is recorded, else global.
    pub fn wait_url(&self) -> (r: Result<String, LroError>)
        ensures
            r matches Ok(u) ==> (url_path_segments(self.self_link@) matches Some(ss) && {
                if self.zone is Some {
                    ss.len() >= 6 && u@ == spec_zonal_wait_url(ss[3], ss[5], self.id@)
                } else if self.region is Some {
                    ss.len() >= 6 && u@ == spec_regional_wait_url(
                        ss[3],
                        region_of_zone(ss[5]),
                        self.id@,
                    )
                } else {
                    ss.len() >= 4 && u@ == spec_global_wait_url(ss[3], self.id@)
                }
            }),
            r matches Err(e) ==> e == LroError::MalformedUrl && match url_path_segments(
                self.self_link@,
            ) {
                Some(ss) => if self.zone is Some || self.region is Some {
                    ss.len() < 6
                } else {
                    ss.len() < 4
                },
                None => true,
            },
    {
        if self.zone.is_some() {
            self.zonal_wait_url()
        } else if self.region.is_some() {
            self.regional_wait_url()
        } else {
            self.global_wait_url()
        }
    }
}

} // verus!
