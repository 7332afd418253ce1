//! The whole topology of a cluster, the names of its resources, and the
//! patches that guard its deletion.
use crate::crd::CitusClusterSpec;
use crate::jobs;
use crate::master;
use crate::resources::{app_labels, master_labels, master_selector, pairs, Endpoint, Task, Workload};
use crate::storage::quantity;
use crate::workers;
use vstd::prelude::*;
use vstd::string::StringExecFns;

verus! {

/// Token that holds a cluster object until its teardown is done.
pub const FINALIZER: &'static str = "citusclusters.jw3.xyz/finalizer";

/// The resources that one cluster is made of.
#[derive(Clone, Copy, Debug, PartialEq, Eq, Hash, Structural)]
pub enum Resource {
    MasterWorkload,
    MasterEndpoint,
    WorkerWorkload,
    WorkerEndpoint,
    RegistrationTask,
}

/// Name of resource `r` of cluster `name`.
pub open spec fn resource_name(name: Seq<char>, r: Resource) -> Seq<char> {
    match r {
        Resource::MasterWorkload => master::workload_name(name),
        Resource::MasterEndpoint => master::endpoint_name(name),
        Resource::WorkerWorkload => workers::workload_name(name),
        Resource::WorkerEndpoint => workers::endpoint_name(name),
        Resource::RegistrationTask => jobs::task_name(name),
    }
}

/// Name of resource `r` of cluster `name`.
pub fn make_resource_name(name: &str, r: Resource) -> (s: String)
    ensures
        s@ == resource_name(name@, r),
{
    match r {
        Resource::MasterWorkload => master::qname(name),
        Resource::MasterEndpoint => name.to_owned(),
        Resource::WorkerWorkload => workers::qname(name),
        Resource::WorkerEndpoint => workers::endpoint_qname(name),
        Resource::RegistrationTask => {
            let mut s = name.to_owned();
            s.append("-init-workers");
            s
        },
    }
}

/// Distinct clusters get distinct names for each resource, and within one
/// cluster the master's and the workers' resources of a kind never share a
/// name.
pub proof fn lemma_names_distinct(a: Seq<char>, b: Seq<char>, r: Resource)
    ensures
        a != b ==> resource_name(a, r) != resource_name(b, r),
        master::workload_name(a) != workers::workload_name(a),
        master::endpoint_name(a) != workers::endpoint_name(a),
{
    if a != b && resource_name(a, r) == resource_name(b, r) {
        let sa = resource_name(a, r);
        let sb = resource_name(b, r);
        assert(sa.len() == sb.len());
        assert(a.len() == b.len());
        assert(a =~= sa.subrange(0, a.len() as int));
        assert(b =~= sb.subrange(0, b.len() as int));
    }
    assert(master::endpoint_name(a).len() != workers::endpoint_name(a).len()) by {
        reveal_strlit("-worker");
    }
    reveal_strlit("-master");
    reveal_strlit("-workers");
    assert(master::workload_name(a).len() != workers::workload_name(a).len());
}

/// Everything that a cluster needs, in the order in which it is created.
#[derive(Clone, Debug)]
pub struct DesiredTopology {
    pub master: Workload,
    pub workers: Workload,
    pub worker_endpoint: Endpoint,
    pub master_endpoint: Endpoint,
    pub registration: Task,
}

/// The topology of cluster `name` in `namespace` with specification `spec`.
pub fn deploy(name: &str, namespace: &str, spec: &CitusClusterSpec) -> (r: DesiredTopology)
    requires
        spec.valid(),
    ensures
        r.master.name@ == resource_name(name@, Resource::MasterWorkload),
        r.master.replicas == 1,
        pairs(r.master.labels@) == master_labels(name@),
        r.workers.name@ == resource_name(name@, Resource::WorkerWorkload),
        r.workers.replicas == spec.workers,
        pairs(r.workers.labels@) == app_labels(name@),
        r.workers.service_name matches Some(s) && s@ == resource_name(
            name@,
            Resource::WorkerEndpoint,
        ),
        r.workers.claim matches Some(c) && c.storage@ == quantity(spec.storage_gb_spec()),
        r.worker_endpoint.name@ == resource_name(name@, Resource::WorkerEndpoint),
        r.worker_endpoint.headless,
        pairs(r.worker_endpoint.selector@) == app_labels(name@),
        r.master_endpoint.name@ == resource_name(name@, Resource::MasterEndpoint),
        !r.master_endpoint.headless,
        pairs(r.master_endpoint.selector@) == master_selector(),
        r.registration.name@ == resource_name(name@, Resource::RegistrationTask),
        r.registration.command@.len() == 3,
        r.registration.command@[2]@ == jobs::registration_command(name@, spec.workers as nat),
        r.master.namespace@ == namespace@,
        r.workers.namespace@ == namespace@,
        r.worker_endpoint.namespace@ == namespace@,
        r.master_endpoint.namespace@ == namespace@,
        r.registration.namespace@ == namespace@,
{
    DesiredTopology {
        master: master::deployment(name, namespace),
        workers: workers::stateful_set(name, namespace, spec.workers, spec.storage_gb()),
        worker_endpoint: workers::service(name, namespace),
        master_endpoint: master::service(name, namespace),
        registration: jobs::register_workers(name, namespace, spec.workers as u32),
    }
}

/// A merge patch of a cluster object that touches its finalizers alone.
#[derive(Clone, Copy, Debug, PartialEq, Eq, Structural)]
pub enum FinalizerPatch {
    /// Sets the finalizers to exactly the cluster's token.
    Add,
    /// Clears the finalizers.
    Remove,
}

/// The JSON text of a finalizer patch.
pub open spec fn patch_json(p: FinalizerPatch) -> Seq<char> {
    match p {
        FinalizerPatch::Add => "{\"metadata\":{\"finalizers\":[\""@ + FINALIZER@ + "\"]}}"@,
        FinalizerPatch::Remove => "{\"metadata\":{\"finalizers\":null}}"@,
    }
}

/// The finalizers of an object after the patch is merged into it.
pub open spec fn patched_finalizers(p: FinalizerPatch) -> Seq<Seq<char>> {
    match p {
        FinalizerPatch::Add => seq![FINALIZER@],
        FinalizerPatch::Remove => Seq::empty(),
    }
}

impl FinalizerPatch {
    /// The patch as JSON text, to be sent as a merge patch.
    pub fn to_json(&self) -> (r: String)
        ensures
            r@ == patch_json(*self),
    {
        match self {
            FinalizerPatch::Add => {
                let mut r = "{\"metadata\":{\"finalizers\":[\"".to_owned();
                r.append(FINALIZER);
                r.append("\"]}}");
                r
            },
            FinalizerPatch::Remove => "{\"metadata\":{\"finalizers\":null}}".to_owned(),
        }
    }
}

/// The patch that guards a cluster object before anything is provisioned.
pub fn add_finalizer() -> (r: FinalizerPatch)
    ensures
        r == FinalizerPatch::Add,
        patched_finalizers(r) == seq![FINALIZER@],
{
    FinalizerPatch::Add
}

/// The patch that releases the cluster object once teardown is done.
pub fn delete_finalizer() -> (r: FinalizerPatch)
    ensures
        r == FinalizerPatch::Remove,
        patched_finalizers(r) == Seq::<Seq<char>>::empty(),
{
    FinalizerPatch::Remove
}

} // verus!
