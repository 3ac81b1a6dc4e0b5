//! The instance resource descriptor: an immutable value object, fully
//! constructed before submission, serialized once by the caller and then
//! discarded. The deployment-specific identifiers the builders embed come
//! from an explicit [`BuilderConfig`], never from compiled-in constants.

use vstd::prelude::*;
use vstd::string::StringExecFns;

use crate::operation::spec_endpoint_root;
use crate::operation::endpoint_root;

verus! {

/// The deployment-specific identifiers the resource builders embed in the
/// bodies they construct.
pub struct BuilderConfig {
    /// The project that owns the resources.
    pub project: String,
    /// The zone whose disk-type path initializes boot disks.
    pub disk_zone: String,
    /// The image boot disks are created from.
    pub source_image: String,
}

impl Default for BuilderConfig {
    /// The deployment this tool was first written for.
    fn default() -> (r: BuilderConfig)
        ensures
            r.project@ == "fred-hsu-veos"@,
            r.disk_zone@ == "us-central1-a"@,
            r.source_image@ == "projects/debian-cloud/global/images/debian-11-bullseye-v20221206"@,
    {
        BuilderConfig {
            project: "fred-hsu-veos".to_owned(),
            disk_zone: "us-central1-a".to_owned(),
            source_image: "projects/debian-cloud/global/images/debian-11-bullseye-v20221206"
                .to_owned(),
        }
    }
}

/// A virtual machine instance to be created.
pub struct Instance {
    pub machine_type: String,
    pub name: String,
    pub disks: Vec<Disk>,
    pub network_interfaces: Vec<NetworkInterface>,
}

/// One disk of an instance.
pub struct Disk {
    pub auto_delete: bool,
    pub boot: bool,
    pub device_name: String,
    pub initialize_params: InitializeParam,
    pub mode: String,
    pub disk_type: String,
}

/// How a disk is initialized at creation.
pub struct InitializeParam {
    pub disk_size_gb: String,
    pub disk_type: String,
    pub source_image: String,
}

/// One network interface of an instance.
pub struct NetworkInterface {
    pub access_configs: Vec<AccessConfig>,
    pub stack_type: String,
    pub subnetwork: String,
}

/// One access configuration of a network interface.
pub struct AccessConfig {
    pub name: String,
    pub network_tier: String,
}

/// The initialization parameters of a boot disk under a configuration: a
/// balanced disk of ten gigabytes in the configured project and disk zone,
/// created from the configured image.
pub open spec fn spec_init_params(p: InitializeParam, cfg: BuilderConfig) -> bool {
    &&& p.disk_size_gb@ == "10"@
    &&& p.disk_type@ == "projects/"@ + cfg.project@ + "/zones/"@ + cfg.disk_zone@
        + "/diskTypes/pd-balanced"@
    &&& p.source_image@ == cfg.source_image@
}

/// A boot disk built for a device name under a configuration.
pub open spec fn spec_boot_disk(d: Disk, device_name: Seq<char>, cfg: BuilderConfig) -> bool {
    &&& d.auto_delete == true
    &&& d.boot == true
    &&& d.device_name@ == device_name
    &&& spec_init_params(d.initialize_params, cfg)
    &&& d.mode@ == "READ_WRITE"@
    &&& d.disk_type@ == "PERSISTENT"@
}

/// A network interface built for a subnetwork path.
pub open spec fn spec_default_nic(n: NetworkInterface, subnetwork: Seq<char>) -> bool {
    &&& n.access_configs@.len() == 1
    &&& n.access_configs@[0].name@ == "External NAT"@
    &&& n.access_configs@[0].network_tier@ == "PREMIUM"@
    &&& n.stack_type@ == "IPV4_ONLY"@
    &&& n.subnetwork@ == subnetwork
}

impl InitializeParam {
    /// The initialization parameters of a boot disk under the given
    /// configuration.
    pub fn new(cfg: &BuilderConfig) -> (r: InitializeParam)
        ensures
            spec_init_params(r, *cfg),
    {
        let mut disk_type = "projects/".to_owned();
        disk_type.append(cfg.project.as_str());
        disk_type.append("/zones/");
        disk_type.append(cfg.disk_zone.as_str());
        disk_type.append("/diskTypes/pd-balanced");
        InitializeParam {
            disk_size_gb: "10".to_owned(),
            disk_type,
            source_image: cfg.source_image.clone(),
        }
    }
}

impl Disk {
    /// An auto-deleting persistent boot disk under the given device name
    /// and configuration.
    pub fn new(device_name: &str, cfg: &BuilderConfig) -> (r: Disk)
        ensures
            spec_boot_disk(r, device_name@, *cfg),
    {
        Disk {
            auto_delete: true,
            boot: true,
            device_name: device_name.to_owned(),
            initialize_params: InitializeParam::new(cfg),
            mode: "READ_WRITE".to_owned(),
            disk_type: "PERSISTENT".to_owned(),
        }
    }
}

impl NetworkInterface {
    /// An IPv4 interface on the given subnetwork with a single premium
    /// external NAT access configuration.
    pub fn new(subnetwork: &str) -> (r: NetworkInterface)
        ensures
            spec_default_nic(r, subnetwork@),
    {
        let mut access_configs: Vec<AccessConfig> = Vec::new();
        access_configs.push(
            AccessConfig { name: "External NAT".to_owned(), network_tier: "PREMIUM".to_owned() },
        );
        NetworkInterface {
            access_configs,
            stack_type: "IPV4_ONLY".to_owned(),
            subnetwork: subnetwork.to_owned(),
        }
    }
}

impl Instance {
    /// An instance under the given name, with one boot disk named after it,
    /// one interface on the given subnetwork, and an e2-micro machine type
    /// in the given zone of the configured project.
    pub fn new(name: &str, subnetwork: &str, zone: &str, cfg: &BuilderConfig) -> (r: Instance)
        ensures
            r.name@ == name@,
            r.machine_type@ == "projects/"@ + cfg.project@ + "/zones/"@ + zone@
                + "/machineTypes/e2-micro"@,
            r.disks@.len() == 1 && spec_boot_disk(r.disks@[0], name@, *cfg),
            r.network_interfaces@.len() == 1 && spec_default_nic(
                r.network_interfaces@[0],
                subnetwork@,
            ),
    {
        let mut disks: Vec<Disk> = Vec::new();
        disks.push(Disk::new(name, cfg));
        let mut network_interfaces: Vec<NetworkInterface> = Vec::new();
        network_interfaces.push(NetworkInterface::new(subnetwork));
        let mut machine_type = "projects/".to_owned();
        machine_type.append(cfg.project.as_str());
        machine_type.append("/zones/");
        machine_type.append(zone);
        machine_type.append("/machineTypes/e2-micro");
        Instance { machine_type, name: name.to_owned(), disks, network_interfaces }
    }
}

/// The endpoint the instance-create request is posted to.
pub open spec fn spec_instance_create_url(project: Seq<char>, zone: Seq<char>) -> Seq<char> {
    spec_endpoint_root() + "/projects/"@ + project + "/zones/"@ + zone + "/instances"@
}

/// Composes the endpoint the instance-create request is posted to.
pub fn instance_create_url(project: &str, zone: &str) -> (r: String)
    ensures
        r@ == spec_instance_create_url(project@, zone@),
{
    let mut u = endpoint_root().to_owned();
    u.append("/projects/");
    u.append(project);
    u.append("/zones/");
    u.append(zone);
    u.append("/instances");
    u
}

} // verus!
