use gcp_rust::errors::LroError;
use gcp_rust::operation::{build_wait_url, Operation, OperationStatus};

fn op(
    id: &str,
    self_link: &str,
    status: OperationStatus,
    zone: Option<&str>,
    region: Option<&str>,
) -> Operation {
    Operation {
        kind: "compute#operation".to_string(),
        id: id.to_string(),
        name: format!("operation-{id}"),
        zone: zone.map(|z| z.to_string()),
        region: region.map(|r| r.to_string()),
        client_operation_id: None,
        operation_type: "insert".to_string(),
        operation_group_id: None,
        target_link: format!("https://www.googleapis.com/compute/v1/projects/p1/things/{id}"),
        target_id: "42".to_string(),
        status,
        user: "someone".to_string(),
        progress: 0,
        insert_time: "2023-01-01T00:00:00Z".to_string(),
        start_time: "2023-01-01T00:00:01Z".to_string(),
        status_message: None,
        end_time: None,
        self_link: self_link.to_string(),
        description: None,
    }
}

#[test]
fn build_wait_url_appends_wait() {
    let o = op(
        "123",
        "https://compute.googleapis.com/compute/v1/projects/p1/global/operations/123",
        OperationStatus::Pending,
        None,
        None,
    );
    assert_eq!(
        build_wait_url(&o),
        "https://compute.googleapis.com/compute/v1/projects/p1/global/operations/123/wait"
            .to_string()
    );
}

#[test]
fn global_wait_url_matches_template() {
    let o = op(
        "123",
        "https://compute.googleapis.com/compute/v1/projects/p1/global/operations/123",
        OperationStatus::Pending,
        None,
        None,
    );
    let templated = o.global_wait_url().unwrap();
    assert_eq!(
        templated,
        "https://compute.googleapis.com/compute/v1/projects/p1/global/operations/123/wait"
            .to_string()
    );
    // The self-link-suffix strategy and the templated form agree on a
    // canonical self-link.
    assert_eq!(templated, build_wait_url(&o));
}

#[test]
fn zonal_wait_url_matches_template() {
    let o = op(
        "7",
        "https://compute.googleapis.com/compute/v1/projects/p1/zones/us-west1-a/operations/7",
        OperationStatus::Running,
        Some("us-west1-a"),
        None,
    );
    assert_eq!(
        o.zonal_wait_url().unwrap(),
        "https://compute.googleapis.com/compute/v1/projects/p1/zones/us-west1-a/operations/7/wait"
            .to_string()
    );
}

#[test]
fn regional_wait_url_derives_region() {
    let o = op(
        "7",
        "https://compute.googleapis.com/compute/v1/projects/p1/zones/us-west1-a/operations/7",
        OperationStatus::Running,
        None,
        Some("us-west1"),
    );
    assert_eq!(
        o.regional_wait_url().unwrap(),
        "https://compute.googleapis.com/compute/v1/projects/p1/regions/us-west1/operations/7/wait"
            .to_string()
    );
}

#[test]
fn zone_url_has_no_wait_suffix() {
    let o = op(
        "7",
        "https://compute.googleapis.com/compute/v1/projects/p1/zones/us-west1-a/operations/7",
        OperationStatus::Running,
        Some("us-west1-a"),
        None,
    );
    assert_eq!(
        o.zone_url().unwrap(),
        "https://compute.googleapis.com/compute/v1/projects/p1/zones/us-west1-a/operations/7"
            .to_string()
    );
}

#[test]
fn wait_url_dispatches_on_scope_fields() {
    let link = "https://compute.googleapis.com/compute/v1/projects/p1/zones/us-west1-a/operations/7";
    let zonal = op("7", link, OperationStatus::Running, Some("us-west1-a"), None);
    let regional = op("7", link, OperationStatus::Running, None, Some("us-west1"));
    let global = op("7", link, OperationStatus::Running, None, None);
    assert_eq!(zonal.wait_url(), zonal.zonal_wait_url());
    assert_eq!(regional.wait_url(), regional.regional_wait_url());
    assert_eq!(global.wait_url(), global.global_wait_url());
}

#[test]
fn wait_url_malformed_self_link() {
    let o = op("7", "no scheme here", OperationStatus::Running, None, None);
    assert_eq!(o.global_wait_url(), Err(LroError::MalformedUrl));
    assert_eq!(o.zonal_wait_url(), Err(LroError::MalformedUrl));
    assert_eq!(o.wait_url(), Err(LroError::MalformedUrl));
}

#[test]
fn zonal_wait_url_needs_six_segments() {
    let o = op(
        "7",
        "https://compute.googleapis.com/compute/v1/projects/p1",
        OperationStatus::Running,
        None,
        None,
    );
    assert_eq!(o.zonal_wait_url(), Err(LroError::MalformedUrl));
    // The same link still reaches the project for the global template.
    assert!(o.global_wait_url().is_ok());
}

#[test]
fn is_done_only_when_terminal() {
    let link = "https://compute.googleapis.com/compute/v1/projects/p1/global/operations/1";
    assert!(!op("1", link, OperationStatus::Pending, None, None).is_done());
    assert!(!op("1", link, OperationStatus::Running, None, None).is_done());
    assert!(op("1", link, OperationStatus::Done, None, None).is_done());
}

#[test]
fn well_formedness_rejects_double_scope() {
    let link = "https://compute.googleapis.com/compute/v1/projects/p1/zones/us-west1-a/operations/7";
    let ok = op("7", link, OperationStatus::Running, Some("us-west1-a"), None);
    assert!(ok.is_well_formed());
    let both = op("7", link, OperationStatus::Running, Some("us-west1-a"), Some("us-west1"));
    assert!(!both.is_well_formed());
    let mut early_end = op("7", link, OperationStatus::Running, None, None);
    early_end.end_time = Some("2023-01-01T00:00:09Z".to_string());
    assert!(!early_end.is_well_formed());
    early_end.status = OperationStatus::Done;
    assert!(early_end.is_well_formed());
    let mut overdone = op("7", link, OperationStatus::Running, None, None);
    overdone.progress = 101;
    assert!(!overdone.is_well_formed());
}

#[test]
fn error_descriptions() {
    assert_eq!(LroError::TransportError.describe(), "transport failure");
    assert_eq!(
        LroError::DecodeError.describe(),
        "response did not decode as an operation"
    );
    assert_eq!(LroError::MalformedUrl.describe(), "malformed self-link");
    assert_eq!(
        LroError::Timeout.describe(),
        "operation did not finish before the deadline"
    );
    assert_eq!(
        LroError::CredentialError.describe(),
        "could not obtain a credential"
    );
}
