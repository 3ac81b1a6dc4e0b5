use gcp_rust::instance::{
    instance_create_url, BuilderConfig, Disk, InitializeParam, Instance, NetworkInterface,
};
use gcp_rust::vpc::{vpc_create_url, Vpc};

#[test]
fn vpc_new_fields() {
    let v = Vpc::new("fh-test-1");
    assert!(v.auto_create_subnetworks);
    assert_eq!(v.name, "fh-test-1".to_string());
    assert_eq!(v.routing_config.routing_mode, "REGIONAL".to_string());
}

#[test]
fn builder_config_default_identifiers() {
    let cfg = BuilderConfig::default();
    assert_eq!(cfg.project, "fred-hsu-veos".to_string());
    assert_eq!(cfg.disk_zone, "us-central1-a".to_string());
    assert_eq!(
        cfg.source_image,
        "projects/debian-cloud/global/images/debian-11-bullseye-v20221206".to_string()
    );
}

#[test]
fn initialize_param_fields() {
    let p = InitializeParam::new(&BuilderConfig::default());
    assert_eq!(p.disk_size_gb, "10".to_string());
    assert_eq!(
        p.disk_type,
        "projects/fred-hsu-veos/zones/us-central1-a/diskTypes/pd-balanced".to_string()
    );
    assert_eq!(
        p.source_image,
        "projects/debian-cloud/global/images/debian-11-bullseye-v20221206".to_string()
    );
}

#[test]
fn disk_new_fields() {
    let d = Disk::new("fh-vm-1", &BuilderConfig::default());
    assert!(d.auto_delete);
    assert!(d.boot);
    assert_eq!(d.device_name, "fh-vm-1".to_string());
    assert_eq!(d.mode, "READ_WRITE".to_string());
    assert_eq!(d.disk_type, "PERSISTENT".to_string());
    assert_eq!(d.initialize_params.disk_size_gb, "10".to_string());
}

#[test]
fn network_interface_uses_the_given_subnetwork() {
    let n = NetworkInterface::new("projects/p1/regions/us-west1/subnetworks/net-1");
    assert_eq!(n.access_configs.len(), 1);
    assert_eq!(n.access_configs[0].name, "External NAT".to_string());
    assert_eq!(n.access_configs[0].network_tier, "PREMIUM".to_string());
    assert_eq!(n.stack_type, "IPV4_ONLY".to_string());
    assert_eq!(
        n.subnetwork,
        "projects/p1/regions/us-west1/subnetworks/net-1".to_string()
    );
}

#[test]
fn instance_new_fields() {
    let i = Instance::new(
        "fh-vm-1",
        "projects/p1/regions/us-west1/subnetworks/net-1",
        "us-west1-a",
        &BuilderConfig::default(),
    );
    assert_eq!(i.name, "fh-vm-1".to_string());
    assert_eq!(
        i.machine_type,
        "projects/fred-hsu-veos/zones/us-west1-a/machineTypes/e2-micro".to_string()
    );
    assert_eq!(i.disks.len(), 1);
    assert_eq!(i.disks[0].device_name, "fh-vm-1".to_string());
    assert!(i.disks[0].boot);
    assert_eq!(i.network_interfaces.len(), 1);
    assert_eq!(
        i.network_interfaces[0].subnetwork,
        "projects/p1/regions/us-west1/subnetworks/net-1".to_string()
    );
}

#[test]
fn builders_range_over_the_configuration() {
    let cfg = BuilderConfig {
        project: "p1".to_string(),
        disk_zone: "eu-west4-b".to_string(),
        source_image: "projects/img-proj/global/images/img-1".to_string(),
    };
    let i = Instance::new("vm", "projects/p1/regions/eu-west4/subnetworks/net", "eu-west4-b", &cfg);
    assert_eq!(
        i.machine_type,
        "projects/p1/zones/eu-west4-b/machineTypes/e2-micro".to_string()
    );
    assert_eq!(
        i.disks[0].initialize_params.disk_type,
        "projects/p1/zones/eu-west4-b/diskTypes/pd-balanced".to_string()
    );
    assert_eq!(
        i.disks[0].initialize_params.source_image,
        "projects/img-proj/global/images/img-1".to_string()
    );
}

#[test]
fn create_endpoints() {
    assert_eq!(
        vpc_create_url("p1"),
        "https://www.googleapis.com/compute/v1/projects/p1/global/networks".to_string()
    );
    assert_eq!(
        instance_create_url("p1", "us-west1-a"),
        "https://www.googleapis.com/compute/v1/projects/p1/zones/us-west1-a/instances".to_string()
    );
}
