//! The master node: one replica and the endpoint that clients reach.
use crate::resources::{
    database_env, make_database_env, make_master_labels, make_master_selector, master_labels,
    master_selector, pairs, Endpoint, Role, Workload, DB_PORT, IMAGE, PORT_NAME,
};
use vstd::prelude::*;
use vstd::string::StringExecFns;

verus! {

/// Name of the master workload of cluster `name`.
pub open spec fn workload_name(name: Seq<char>) -> Seq<char> {
    name + "-master"@
}

/// Name of the endpoint in front of the master: the cluster's own name.
pub open spec fn endpoint_name(name: Seq<char>) -> Seq<char> {
    name
}

/// Name of the master workload of cluster `name`.
pub fn qname(name: &str) -> (r: String)
    ensures
        r@ == workload_name(name@),
{
    let mut r = name.to_owned();
    r.append("-master");
    r
}

/// The single-replica master workload of cluster `name`.
pub fn deployment(name: &str, namespace: &str) -> (r: Workload)
    ensures
        r.name@ == workload_name(name@),
        r.namespace@ == namespace@,
        r.role == Role::Master,
        pairs(r.labels@) == master_labels(name@),
        r.replicas == 1,
        r.container_name@ == workload_name(name@),
        r.image@ == IMAGE@,
        r.port == DB_PORT,
        pairs(r.env@) == database_env(),
        r.service_name is None,
        r.claim is None,
{
    Workload {
        name: qname(name),
        namespace: namespace.to_owned(),
        role: Role::Master,
        labels: make_master_labels(name),
        replicas: 1,
        container_name: qname(name),
        image: IMAGE.to_owned(),
        port: DB_PORT,
        env: make_database_env(),
        service_name: None,
        claim: None,
    }
}

/// The load-balanced endpoint that fronts the master of cluster `name`.
pub fn service(name: &str, namespace: &str) -> (r: Endpoint)
    ensures
        r.name@ == endpoint_name(name@),
        r.namespace@ == namespace@,
        pairs(r.labels@) == master_labels(name@),
        pairs(r.selector@) == master_selector(),
        r.port_name@ == PORT_NAME@,
        r.port == DB_PORT,
        !r.headless,
{
    Endpoint {
        name: name.to_owned(),
        namespace: namespace.to_owned(),
        labels: make_master_labels(name),
        selector: make_master_selector(),
        port_name: PORT_NAME.to_owned(),
        port: DB_PORT,
        headless: false,
    }
}

} // verus!
