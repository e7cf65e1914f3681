//! Data model: instance types, regions, instances, and the request and
//! report values the acquisition flow exchanges with the provider.

use vstd::prelude::*;

verus! {

/// Hardware profile of an instance type.
#[derive(Clone, Copy, PartialEq, Eq, Structural, Debug)]
pub struct InstanceSpecs {
    pub vcpus: u32,
    pub memory_gib: u32,
    pub storage_gib: u32,
}

/// A provider region; membership in an instance type's capacity list is the
/// sole precondition for launching there.
#[derive(PartialEq, Eq, Debug)]
pub struct Region {
    pub name: String,
    pub description: String,
}

impl Clone for Region {
    fn clone(&self) -> (res: Self)
        ensures
            res == *self,
    {
        Region { name: self.name.clone(), description: self.description.clone() }
    }
}

/// Descriptive fields of an instance type.
#[derive(PartialEq, Eq, Debug)]
pub struct InstanceTypeInfo {
    pub description: String,
    pub price_cents_per_hour: i32,
    pub specs: InstanceSpecs,
}

/// One catalog entry: an instance type together with the regions that
/// currently report spare capacity for it. Fetched fresh on every query;
/// never cached across polls.
#[derive(PartialEq, Eq, Debug)]
pub struct CatalogEntry {
    pub name: String,
    pub info: InstanceTypeInfo,
    pub regions: Vec<Region>,
}

/// A running (or transitioning) instance as the provider reports it; every
/// field may be absent from the provider's response.
#[derive(PartialEq, Eq, Debug)]
pub struct Instance {
    pub id: Option<String>,
    pub status: Option<String>,
    pub ip: Option<String>,
    pub ssh_key_names: Option<Vec<String>>,
}

/// Body of a launch call. The client always requests quantity 1 with a
/// single SSH key.
#[derive(PartialEq, Eq, Debug)]
pub struct LaunchRequest {
    pub region_name: String,
    pub instance_type_name: String,
    pub ssh_key_names: Vec<String>,
    pub quantity: u64,
}

/// Body of a terminate call: the ids of the instances to destroy.
#[derive(PartialEq, Eq, Debug)]
pub struct TerminateRequest {
    pub instance_ids: Vec<String>,
}

/// Everything that can abort an operation against the provider.
#[derive(Clone, Copy, PartialEq, Eq, Structural, Debug)]
pub enum AcquireError {
    /// The credential was rejected by the provider.
    Authentication,
    /// Transport-level failure.
    Network,
    /// Non-success status with a body.
    Api,
    /// Success status but the body does not match the expected schema.
    Parse,
    /// The queried type or instance id is unknown to the provider.
    NotFound,
    /// A launch was attempted for a region with no reported capacity.
    NoCapacity,
}

/// What the acquisition flow reports once the activation wait is over.
#[derive(PartialEq, Eq, Debug)]
pub enum ConnectionReport {
    /// The instance carries a network address to connect to.
    Endpoint { address: String },
    /// The instance exists but no address is assigned yet; no further
    /// polling is attempted.
    AddressPending,
}

/// Builds the launch body: quantity is always 1 and the SSH key list always
/// holds exactly the one given key.
pub fn make_launch_request(
    instance_type_name: &String,
    region_name: &String,
    ssh_key_name: &String,
) -> (r: LaunchRequest)
    ensures
        r.instance_type_name == *instance_type_name,
        r.region_name == *region_name,
        r.ssh_key_names@ == seq![*ssh_key_name],
        r.quantity == 1,
{
    let mut keys: Vec<String> = Vec::new();
    keys.push(ssh_key_name.clone());
    proof {
        assert(keys@ =~= seq![*ssh_key_name]);
    }
    LaunchRequest {
        region_name: region_name.clone(),
        instance_type_name: instance_type_name.clone(),
        ssh_key_names: keys,
        quantity: 1,
    }
}

/// Builds the terminate body: exactly the one given instance id.
pub fn make_terminate_request(instance_id: &String) -> (r: TerminateRequest)
    ensures
        r.instance_ids@ == seq![*instance_id],
{
    let mut ids: Vec<String> = Vec::new();
    ids.push(instance_id.clone());
    proof {
        assert(ids@ =~= seq![*instance_id]);
    }
    TerminateRequest { instance_ids: ids }
}

/// One row of the running-instances listing, with every absent field
/// already replaced by the placeholder the listing shows.
#[derive(PartialEq, Eq, Debug)]
pub struct RunningRow {
    pub id: String,
    pub status: String,
    pub ip: String,
    pub ssh_key_names: Vec<String>,
}

/// Turns a reported instance into its listing row: each absent field
/// becomes "N/A", and an absent key list becomes the one-element list
/// ["N/A"].
pub fn running_row(instance: Instance) -> (r: RunningRow)
    ensures
        instance.id matches Some(v) ==> r.id == v,
        instance.id is None ==> r.id@ == "N/A"@,
        instance.status matches Some(v) ==> r.status == v,
        instance.status is None ==> r.status@ == "N/A"@,
        instance.ip matches Some(v) ==> r.ip == v,
        instance.ip is None ==> r.ip@ == "N/A"@,
        instance.ssh_key_names matches Some(ks) ==> r.ssh_key_names == ks,
        instance.ssh_key_names is None ==> r.ssh_key_names@.len() == 1
            && r.ssh_key_names@[0]@ == "N/A"@,
{
    let id = match instance.id {
        Some(v) => v,
        None => "N/A".to_owned(),
    };
    let status = match instance.status {
        Some(v) => v,
        None => "N/A".to_owned(),
    };
    let ip = match instance.ip {
        Some(v) => v,
        None => "N/A".to_owned(),
    };
    let ssh_key_names = match instance.ssh_key_names {
        Some(ks) => ks,
        None => {
            let mut ks: Vec<String> = Vec::new();
            ks.push("N/A".to_owned());
            ks
        },
    };
    RunningRow { id, status, ip, ssh_key_names }
}

/// Reads an instance detail into the final report: the assigned address if
/// there is one, otherwise a note that the address is still pending.
pub fn connection_report(instance: &Instance) -> (r: ConnectionReport)
    ensures
        instance.ip matches Some(address) ==> r == (ConnectionReport::Endpoint { address }),
        instance.ip is None ==> r == ConnectionReport::AddressPending,
{
    match &instance.ip {
        Some(address) => ConnectionReport::Endpoint { address: address.clone() },
        None => ConnectionReport::AddressPending,
    }
}

} // verus!
