use std::collections::HashSet;

use example_citus_operator::cluster::Resource;
use example_citus_operator::crd::{CitusClusterSpec, ClusterObject, Phase};
use example_citus_operator::storage::claim_names;
use example_citus_operator::reconciler::{
    determine_action, is_tolerated, on_error, Action, CallOutcome, ClusterAction, Error, Next,
    Reconciliation, Step, SubstrateError,
};

fn object(deleting: bool, finalizers: Option<Vec<&str>>) -> ClusterObject {
    ClusterObject {
        name: "demo".to_owned(),
        namespace: Some("default".to_owned()),
        spec: CitusClusterSpec { workers: 3, worker_storage: None },
        deletion_requested: deleting,
        finalizers: finalizers.map(|f| f.into_iter().map(String::from).collect()),
    }
}

fn failed(status: Option<u16>) -> CallOutcome {
    CallOutcome::Failed(SubstrateError { status, message: "refused".to_owned() })
}

/// A substrate that keeps the set of existing resources and the finalizer
/// flag, and logs every call.
struct Substrate {
    store: HashSet<Resource>,
    claims: HashSet<String>,
    finalized: bool,
    log: Vec<Step>,
    fail_on: Option<Step>,
}

impl Substrate {
    fn new() -> Self {
        Substrate { store: HashSet::new(), claims: HashSet::new(), finalized: false, log: Vec::new(), fail_on: None }
    }

    fn call(&mut self, step: Step) -> CallOutcome {
        self.log.push(step);
        if self.fail_on == Some(step) {
            return failed(Some(500));
        }
        match step {
            Step::AddFinalizer => {
                self.finalized = true;
                CallOutcome::Succeeded
            }
            Step::RemoveFinalizer => {
                self.finalized = false;
                CallOutcome::Succeeded
            }
            Step::Create(r) => {
                if r == Resource::WorkerWorkload {
                    // Each worker replica gets a claim from the template.
                    self.claims.extend(claim_names("demo", 3));
                }
                if self.store.insert(r) {
                    CallOutcome::Succeeded
                } else {
                    failed(Some(409))
                }
            }
            Step::Delete(r) => {
                if self.store.remove(&r) {
                    CallOutcome::Succeeded
                } else {
                    failed(Some(404))
                }
            }
        }
    }

    fn reconcile_action(&mut self, action: ClusterAction) -> Result<Action, Error> {
        let mut rec = Reconciliation { action, completed: 0 };
        loop {
            match rec.next() {
                Next::Finish(a) => return Ok(a),
                Next::Call(step) => {
                    let outcome = self.call(step);
                    rec.record(outcome)?;
                }
            }
        }
    }
}

#[test]
fn action_table_is_exhaustive() {
    assert_eq!(determine_action(&object(false, None)), ClusterAction::Create);
    assert_eq!(determine_action(&object(false, Some(vec![]))), ClusterAction::Create);
    assert_eq!(determine_action(&object(false, Some(vec!["f"]))), ClusterAction::NoOp);
    assert_eq!(determine_action(&object(true, None)), ClusterAction::Delete);
    assert_eq!(determine_action(&object(true, Some(vec![]))), ClusterAction::Delete);
    assert_eq!(determine_action(&object(true, Some(vec!["f"]))), ClusterAction::Delete);
}

#[test]
fn scenario_deletion_marker_with_no_finalizer_deletes() {
    let cc = object(true, Some(vec![]));
    let rec = Reconciliation::begin(&cc).unwrap();
    assert_eq!(rec.action, ClusterAction::Delete);
    assert_eq!(rec.next(), Next::Call(Step::Delete(Resource::MasterWorkload)));
}

#[test]
fn begin_refuses_object_without_namespace() {
    let mut cc = object(false, None);
    cc.namespace = None;
    match Reconciliation::begin(&cc) {
        Err(Error::UserInputError(m)) => assert_eq!(m, "Expected namespaced resource."),
        other => panic!("{other:?}"),
    }
}

#[test]
fn begin_refuses_create_without_workers() {
    let mut cc = object(false, None);
    cc.spec.workers = 0;
    assert!(matches!(Reconciliation::begin(&cc), Err(Error::UserInputError(_))));
    cc.spec.workers = 2;
    cc.spec.worker_storage = Some(0);
    assert!(matches!(Reconciliation::begin(&cc), Err(Error::UserInputError(_))));
    // A malformed object can still be deleted.
    cc.deletion_requested = true;
    assert_eq!(Reconciliation::begin(&cc).unwrap().action, ClusterAction::Delete);
}

#[test]
fn noop_requeues_without_calls() {
    let mut sub = Substrate::new();
    assert_eq!(sub.reconcile_action(ClusterAction::NoOp).unwrap(), Action::RequeueAfter(10));
    assert!(sub.log.is_empty());
}

#[test]
fn create_adds_finalizer_before_provisioning() {
    let mut sub = Substrate::new();
    assert_eq!(sub.reconcile_action(ClusterAction::Create).unwrap(), Action::RequeueAfter(10));
    assert_eq!(
        sub.log,
        vec![
            Step::AddFinalizer,
            Step::Create(Resource::MasterWorkload),
            Step::Create(Resource::WorkerWorkload),
            Step::Create(Resource::WorkerEndpoint),
            Step::Create(Resource::MasterEndpoint),
            Step::Create(Resource::RegistrationTask),
        ]
    );
    assert!(sub.finalized);
    assert_eq!(sub.store.len(), 5);
}

#[test]
fn create_twice_is_idempotent() {
    let mut sub = Substrate::new();
    sub.reconcile_action(ClusterAction::Create).unwrap();
    let after_first = sub.store.clone();
    assert_eq!(sub.reconcile_action(ClusterAction::Create).unwrap(), Action::RequeueAfter(10));
    assert_eq!(sub.store, after_first);
    assert_eq!(sub.store.len(), 5);
}

#[test]
fn delete_removes_finalizer_after_teardown() {
    let mut sub = Substrate::new();
    sub.reconcile_action(ClusterAction::Create).unwrap();
    sub.log.clear();
    assert_eq!(sub.reconcile_action(ClusterAction::Delete).unwrap(), Action::AwaitChange);
    let pos = |s: Step| sub.log.iter().position(|x| *x == s).unwrap();
    let fin = pos(Step::RemoveFinalizer);
    assert_eq!(fin, sub.log.len() - 1);
    assert!(pos(Step::Delete(Resource::MasterWorkload)) < fin);
    assert!(pos(Step::Delete(Resource::WorkerWorkload)) < fin);
    assert!(pos(Step::Delete(Resource::MasterWorkload)) < pos(Step::Delete(Resource::WorkerWorkload)));
    assert!(sub.store.is_empty());
    assert!(!sub.finalized);
}

#[test]
fn failed_teardown_keeps_finalizer() {
    let mut sub = Substrate::new();
    sub.reconcile_action(ClusterAction::Create).unwrap();
    sub.fail_on = Some(Step::Delete(Resource::WorkerWorkload));
    let err = sub.reconcile_action(ClusterAction::Delete).unwrap_err();
    assert!(matches!(&err, Error::KubeError(e) if e.status == Some(500)));
    assert_eq!(on_error(&err), Action::RequeueAfter(5));
    assert!(sub.finalized);
    assert!(!sub.log.contains(&Step::RemoveFinalizer));
    // Resumed after the failure: the delete finds the master gone and finishes.
    sub.fail_on = None;
    assert_eq!(sub.reconcile_action(ClusterAction::Delete).unwrap(), Action::AwaitChange);
    assert!(sub.store.is_empty());
    assert!(!sub.finalized);
}

#[test]
fn delete_of_missing_cluster_settles() {
    let mut sub = Substrate::new();
    sub.finalized = true;
    assert_eq!(sub.reconcile_action(ClusterAction::Delete).unwrap(), Action::AwaitChange);
    assert!(!sub.finalized);
}

#[test]
fn record_outcomes() {
    let mut rec = Reconciliation { action: ClusterAction::Create, completed: 0 };
    // A finalizer patch on a missing object is an error.
    assert!(matches!(rec.record(failed(Some(404))), Err(Error::KubeError(_))));
    assert_eq!(rec.completed, 0);
    assert!(rec.record(CallOutcome::Succeeded).is_ok());
    assert_eq!(rec.completed, 1);
    // A conflict on a create settles it.
    assert!(rec.record(failed(Some(409))).is_ok());
    assert_eq!(rec.completed, 2);
    // No status at all is an error.
    assert!(matches!(rec.record(failed(None)), Err(Error::KubeError(e)) if e.status.is_none()));
    assert_eq!(rec.completed, 2);
}

#[test]
fn tolerated_statuses() {
    assert!(is_tolerated(Step::Create(Resource::MasterWorkload), 409));
    assert!(!is_tolerated(Step::Create(Resource::MasterWorkload), 404));
    assert!(is_tolerated(Step::Delete(Resource::WorkerEndpoint), 404));
    assert!(!is_tolerated(Step::Delete(Resource::WorkerEndpoint), 409));
    assert!(is_tolerated(Step::RemoveFinalizer, 404));
    assert!(!is_tolerated(Step::AddFinalizer, 404));
    assert!(!is_tolerated(Step::AddFinalizer, 409));
}

#[test]
fn error_policy() {
    let e = Error::KubeError(SubstrateError { status: Some(503), message: String::new() });
    assert_eq!(on_error(&e), Action::RequeueAfter(5));
    assert_eq!(on_error(&Error::UserInputError("bad".to_owned())), Action::AwaitChange);
}

#[test]
fn scenario_delete_without_purge_keeps_claims() {
    let mut sub = Substrate::new();
    sub.reconcile_action(ClusterAction::Create).unwrap();
    assert_eq!(sub.claims.len(), 3);
    assert_eq!(sub.reconcile_action(ClusterAction::Delete).unwrap(), Action::AwaitChange);
    assert!(!sub.store.contains(&Resource::MasterWorkload));
    assert!(!sub.store.contains(&Resource::WorkerWorkload));
    assert!(!sub.finalized);
    assert_eq!(sub.claims.len(), 3);
}

#[test]
fn scenario_delete_with_purge_removes_claims() {
    let mut sub = Substrate::new();
    sub.reconcile_action(ClusterAction::Create).unwrap();
    assert_eq!(sub.reconcile_action(ClusterAction::Delete).unwrap(), Action::AwaitChange);
    for name in claim_names("demo", 3) {
        assert!(sub.claims.remove(&name), "{name}");
    }
    assert!(sub.claims.is_empty());
    assert!(sub.store.is_empty());
    assert!(!sub.finalized);
}

#[test]
fn phases() {
    assert_eq!(object(false, None).phase(), Phase::Pending);
    assert_eq!(object(false, Some(vec![])).phase(), Phase::Pending);
    assert_eq!(object(false, Some(vec!["f"])).phase(), Phase::Active);
    assert_eq!(object(true, Some(vec!["f"])).phase(), Phase::Terminating);
}
