use example_citus_operator::cluster::{deploy, make_resource_name, FinalizerPatch, Resource, FINALIZER};
use example_citus_operator::crd::CitusClusterSpec;
use example_citus_operator::jobs::{make_registration_command, register_workers, worker_addresses};
use example_citus_operator::master;
use example_citus_operator::resources::Role;
use example_citus_operator::storage::{claim_names, volume_claim_template};
use example_citus_operator::text::{make_ordinal_name, push_decimal};
use example_citus_operator::workers;

fn pairs(v: &[example_citus_operator::resources::Pair]) -> Vec<(String, String)> {
    v.iter().map(|p| (p.key.clone(), p.value.clone())).collect()
}

#[test]
fn decimal_rendering() {
    for (n, want) in [(0u64, "0"), (7, "7"), (10, "10"), (12345, "12345"), (u64::MAX, "18446744073709551615")] {
        let mut s = String::from("x");
        push_decimal(&mut s, n);
        assert_eq!(s, format!("x{want}"));
    }
    assert_eq!(make_ordinal_name("a-", 42, ".b"), "a-42.b");
}

#[test]
fn worker_names() {
    assert_eq!(workers::qname("demo"), "demo-workers");
    assert_eq!(workers::endpoint_qname("demo"), "demo-worker");
    assert_eq!(master::qname("demo"), "demo-master");
}

#[test]
fn resource_names() {
    assert_eq!(make_resource_name("demo", Resource::MasterWorkload), "demo-master");
    assert_eq!(make_resource_name("demo", Resource::MasterEndpoint), "demo");
    assert_eq!(make_resource_name("demo", Resource::WorkerWorkload), "demo-workers");
    assert_eq!(make_resource_name("demo", Resource::WorkerEndpoint), "demo-worker");
    assert_eq!(make_resource_name("demo", Resource::RegistrationTask), "demo-init-workers");
}

#[test]
fn worker_addresses_are_distinct_and_deterministic() {
    let a = worker_addresses("demo", 12);
    assert_eq!(a.len(), 12);
    for (i, addr) in a.iter().enumerate() {
        assert_eq!(addr, &format!("demo-workers-{i}.demo-worker"));
    }
    let mut sorted = a.clone();
    sorted.sort();
    sorted.dedup();
    assert_eq!(sorted.len(), 12);
    assert_eq!(a, worker_addresses("demo", 12));
    assert!(worker_addresses("demo", 0).is_empty());
}

#[test]
fn registration_command_joins_all_workers() {
    assert_eq!(
        make_registration_command("demo", 2),
        "psql -c \"SELECT * from master_add_node('demo-workers-0.demo-worker', 5432);\
SELECT * from master_add_node('demo-workers-1.demo-worker', 5432)\""
    );
    assert_eq!(
        make_registration_command("c", 1),
        "psql -c \"SELECT * from master_add_node('c-workers-0.c-worker', 5432)\""
    );
}

#[test]
fn registration_task_fields() {
    let t = register_workers("demo", "ns", 1);
    assert_eq!(t.name, "demo-init-workers");
    assert_eq!(t.namespace, "ns");
    assert_eq!(t.container_name, "demo-init-worker");
    assert_eq!(t.image, "citusdata/citus:12.1");
    assert_eq!(t.restart_policy, "OnFailure");
    assert_eq!(t.command[0], "bash");
    assert_eq!(t.command[1], "-c");
    assert_eq!(
        pairs(&t.env),
        vec![
            ("PGHOST".to_owned(), "demo".to_owned()),
            ("PGUSER".to_owned(), "postgres".to_owned()),
            ("PGPASSWORD".to_owned(), "yourpassword".to_owned()),
        ]
    );
}

#[test]
fn scenario_create_demo_with_three_workers() {
    let spec = CitusClusterSpec { workers: 3, worker_storage: None };
    let t = deploy("demo", "default", &spec);
    assert_eq!(t.master.name, "demo-master");
    assert_eq!(t.master.replicas, 1);
    assert_eq!(t.master.role, Role::Master);
    assert_eq!(
        pairs(&t.master.labels),
        vec![("app".to_owned(), "demo".to_owned()), ("node".to_owned(), "master".to_owned())]
    );
    assert_eq!(t.workers.name, "demo-workers");
    assert_eq!(t.workers.replicas, 3);
    assert_eq!(t.workers.role, Role::Worker);
    assert_eq!(pairs(&t.workers.labels), vec![("app".to_owned(), "demo".to_owned())]);
    assert_eq!(t.workers.service_name.as_deref(), Some("demo-worker"));
    assert_eq!(t.workers.claim.as_ref().unwrap().storage, "1Gi");
    assert_eq!(t.worker_endpoint.name, "demo-worker");
    assert!(t.worker_endpoint.headless);
    assert_eq!(t.master_endpoint.name, "demo");
    assert!(!t.master_endpoint.headless);
    assert_eq!(pairs(&t.master_endpoint.selector), vec![("node".to_owned(), "master".to_owned())]);
    assert_eq!(t.master_endpoint.port, 5432);
    let cmd = &t.registration.command[2];
    for addr in ["demo-workers-0.demo-worker", "demo-workers-1.demo-worker", "demo-workers-2.demo-worker"] {
        assert!(cmd.contains(addr), "{cmd}");
    }
    assert!(!cmd.contains("demo-workers-3."));
    assert_eq!(cmd.matches("master_add_node").count(), 3);
}

#[test]
fn worker_storage_size() {
    let spec = CitusClusterSpec { workers: 2, worker_storage: Some(25) };
    let t = deploy("db", "ns", &spec);
    let c = t.workers.claim.unwrap();
    assert_eq!(c.name, "data");
    assert_eq!(c.access_mode, "ReadWriteOnce");
    assert_eq!(c.storage, "25Gi");
    assert_eq!(volume_claim_template("x", 5).storage, "5Gi");
}

#[test]
fn purge_names_claims_of_every_worker() {
    assert_eq!(
        claim_names("demo", 3),
        vec!["data-demo-workers-0", "data-demo-workers-1", "data-demo-workers-2"]
    );
}

#[test]
fn finalizer_patches_are_merge_json() {
    let add = FinalizerPatch::Add.to_json();
    assert_eq!(add, "{\"metadata\":{\"finalizers\":[\"citusclusters.jw3.xyz/finalizer\"]}}");
    let v: serde_json::Value = serde_json::from_str(&add).unwrap();
    assert_eq!(v["metadata"]["finalizers"][0], FINALIZER);
    let remove = FinalizerPatch::Remove.to_json();
    let v: serde_json::Value = serde_json::from_str(&remove).unwrap();
    assert!(v["metadata"]["finalizers"].is_null());
}
