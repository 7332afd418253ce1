//! The worker nodes: an ordinally indexed group and its discovery endpoint.
use crate::resources::{
    app_labels, database_env, make_app_labels, make_database_env, pairs, Endpoint, Role, Workload,
    DB_PORT, IMAGE, PORT_NAME,
};
use crate::storage::{quantity, volume_claim_template, ACCESS_MODE, CLAIM_TEMPLATE};
use vstd::prelude::*;
use vstd::string::StringExecFns;

verus! {

/// Name of the worker workload of cluster `name`.
pub open spec fn workload_name(name: Seq<char>) -> Seq<char> {
    name + "-workers"@
}

/// Name of the headless endpoint that gives each worker its address.
pub open spec fn endpoint_name(name: Seq<char>) -> Seq<char> {
    name + "-worker"@
}

/// Name of the worker workload of cluster `name`.
pub fn qname(name: &str) -> (r: String)
    ensures
        r@ == workload_name(name@),
{
    let mut r = name.to_owned();
    r.append("-workers");
    r
}

/// Name of the discovery endpoint of cluster `name`.
pub fn endpoint_qname(name: &str) -> (r: String)
    ensures
        r@ == endpoint_name(name@),
{
    let mut r = name.to_owned();
    r.append("-worker");
    r
}

/// The group of `cnt` workers of cluster `name`, each with a claim of
/// `storage_gb` gigabytes.
pub fn stateful_set(name: &str, namespace: &str, cnt: i32, storage_gb: u32) -> (r: Workload)
    ensures
        r.name@ == workload_name(name@),
        r.namespace@ == namespace@,
        r.role == Role::Worker,
        pairs(r.labels@) == app_labels(name@),
        r.replicas == cnt,
        r.container_name@ == "worker"@,
        r.image@ == IMAGE@,
        r.port == DB_PORT,
        pairs(r.env@) == database_env(),
        r.service_name matches Some(s) && s@ == endpoint_name(name@),
        r.claim matches Some(c) && c.name@ == CLAIM_TEMPLATE@ && c.access_mode@ == ACCESS_MODE@
            && c.storage@ == quantity(storage_gb as nat),
{
    let service_name = endpoint_qname(name);
    Workload {
        name: qname(name),
        namespace: namespace.to_owned(),
        role: Role::Worker,
        labels: make_app_labels(name),
        replicas: cnt,
        container_name: "worker".to_owned(),
        image: IMAGE.to_owned(),
        port: DB_PORT,
        env: make_database_env(),
        service_name: Some(service_name),
        claim: Some(volume_claim_template(CLAIM_TEMPLATE, storage_gb as u64)),
    }
}

/// The headless endpoint through which each worker is reached at its own
/// address.
pub fn service(name: &str, namespace: &str) -> (r: Endpoint)
    ensures
        r.name@ == endpoint_name(name@),
        r.namespace@ == namespace@,
        pairs(r.labels@) == app_labels(name@),
        pairs(r.selector@) == app_labels(name@),
        r.port_name@ == PORT_NAME@,
        r.port == DB_PORT,
        r.headless,
{
    Endpoint {
        name: endpoint_qname(name),
        namespace: namespace.to_owned(),
        labels: make_app_labels(name),
        selector: make_app_labels(name),
        port_name: PORT_NAME.to_owned(),
        port: DB_PORT,
        headless: true,
    }
}

} // verus!
