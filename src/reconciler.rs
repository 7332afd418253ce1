//! The reconcile state machine: which action an object calls for, the
//! substrate calls that carry it out, and what to do with each answer.
use crate::cluster::{resource_name, Resource};
use crate::crd::{phase_of, ClusterObject, Phase};
use vstd::prelude::*;

verus! {

/// Seconds until a converged or freshly created cluster is looked at again.
pub const RESYNC_SECS: u64 = 10;

/// Seconds until a reconcile that failed on the substrate is tried again.
pub const RETRY_SECS: u64 = 5;

/// Substrate status for a create of a resource that already exists.
pub const STATUS_CONFLICT: u16 = 409;

/// Substrate status for a call on a resource that does not exist.
pub const STATUS_NOT_FOUND: u16 = 404;

/// What one pass of the reconciler does with a cluster object.
#[derive(Clone, Copy, Debug, PartialEq, Eq, Structural)]
pub enum ClusterAction {
    Create,
    Delete,
    NoOp,
}

/// The action for an object from its deletion marker and whether it
/// carries finalizers: deletion first, then a missing finalizer.
pub open spec fn action_for(deletion_requested: bool, has_finalizers: bool) -> ClusterAction {
    if deletion_requested {
        ClusterAction::Delete
    } else if !has_finalizers {
        ClusterAction::Create
    } else {
        ClusterAction::NoOp
    }
}

/// Each phase calls for one action: a pending object is created, an active
/// one left alone, a terminating one deleted.
pub proof fn lemma_action_follows_phase(deletion_requested: bool, has_finalizers: bool)
    ensures
        (phase_of(deletion_requested, has_finalizers) == Phase::Pending) == (action_for(
            deletion_requested,
            has_finalizers,
        ) == ClusterAction::Create),
        (phase_of(deletion_requested, has_finalizers) == Phase::Active) == (action_for(
            deletion_requested,
            has_finalizers,
        ) == ClusterAction::NoOp),
        (phase_of(deletion_requested, has_finalizers) == Phase::Terminating) == (action_for(
            deletion_requested,
            has_finalizers,
        ) == ClusterAction::Delete),
{
}

/// The action that object `cc` calls for.
pub fn determine_action(cc: &ClusterObject) -> (r: ClusterAction)
    ensures
        r == action_for(cc.deletion_requested, cc.has_finalizers()),
{
    if cc.deletion_requested {
        ClusterAction::Delete
    } else {
        let empty = match &cc.finalizers {
            Some(f) => f.len() == 0,
            None => true,
        };
        if empty {
            ClusterAction::Create
        } else {
            ClusterAction::NoOp
        }
    }
}

/// One call on the substrate.
#[derive(Clone, Copy, Debug, PartialEq, Eq, Hash, Structural)]
pub enum Step {
    AddFinalizer,
    Create(Resource),
    Delete(Resource),
    RemoveFinalizer,
}

/// The calls that carry out an action, in order.
///
/// The finalizer is added before anything is provisioned, and removed only
/// after the whole topology has been torn down.
pub open spec fn plan(action: ClusterAction) -> Seq<Step> {
    match action {
        ClusterAction::Create => seq![
            Step::AddFinalizer,
            Step::Create(Resource::MasterWorkload),
            Step::Create(Resource::WorkerWorkload),
            Step::Create(Resource::WorkerEndpoint),
            Step::Create(Resource::MasterEndpoint),
            Step::Create(Resource::RegistrationTask),
        ],
        ClusterAction::Delete => seq![
            Step::Delete(Resource::MasterWorkload),
            Step::Delete(Resource::MasterEndpoint),
            Step::Delete(Resource::WorkerWorkload),
            Step::Delete(Resource::WorkerEndpoint),
            Step::Delete(Resource::RegistrationTask),
            Step::RemoveFinalizer,
        ],
        ClusterAction::NoOp => seq![],
    }
}

/// How the control loop goes on with an object after a reconcile.
#[derive(Clone, Copy, Debug, PartialEq, Eq, Structural)]
pub enum Action {
    /// Look at the object again after this many seconds.
    RequeueAfter(u64),
    /// Wait for the next change of the object.
    AwaitChange,
}

/// How the loop goes on once every call of an action has settled.
pub open spec fn finish(action: ClusterAction) -> Action {
    match action {
        ClusterAction::Delete => Action::AwaitChange,
        _ => Action::RequeueAfter(RESYNC_SECS),
    }
}

/// A call that the substrate refused.
#[derive(Clone, Debug)]
pub struct SubstrateError {
    /// The status that the substrate answered with, if it answered.
    pub status: Option<u16>,
    pub message: String,
}

/// The substrate's answer to one call.
#[derive(Clone, Debug)]
pub enum CallOutcome {
    Succeeded,
    Failed(SubstrateError),
}

/// The status of an answer; `None` for a success.
pub open spec fn outcome_status(o: CallOutcome) -> Option<u16> {
    match o {
        CallOutcome::Succeeded => None,
        CallOutcome::Failed(e) => match e.status {
            Some(s) => Some(s),
            None => Some(0),
        },
    }
}

/// A refusal that means the call's goal already holds: the resource to
/// create exists, or the resource to delete, or the object to release, is
/// gone.
pub open spec fn tolerated(step: Step, status: u16) -> bool {
    match step {
        Step::Create(_) => status == STATUS_CONFLICT,
        Step::Delete(_) => status == STATUS_NOT_FOUND,
        Step::RemoveFinalizer => status == STATUS_NOT_FOUND,
        Step::AddFinalizer => false,
    }
}

/// The call has reached its goal: it succeeded, or its refusal is tolerated.
pub open spec fn settles(step: Step, status: Option<u16>) -> bool {
    match status {
        None => true,
        Some(s) => tolerated(step, s),
    }
}

/// Why a reconcile stopped.
#[derive(Clone, Debug)]
pub enum Error {
    /// A substrate call failed; the reconcile is tried again later.
    KubeError(SubstrateError),
    /// The object itself is malformed; trying again cannot help.
    UserInputError(String),
}

/// How the loop goes on after a reconcile failed: a substrate failure is
/// retried after a short fixed delay, a malformed object waits for a change.
pub fn on_error(error: &Error) -> (r: Action)
    ensures
        error is KubeError ==> r == Action::RequeueAfter(RETRY_SECS),
        error is UserInputError ==> r == Action::AwaitChange,
{
    match error {
        Error::KubeError(_) => Action::RequeueAfter(RETRY_SECS),
        Error::UserInputError(_) => Action::AwaitChange,
    }
}

/// What the control loop does next in a reconcile.
#[derive(Clone, Copy, Debug, PartialEq, Eq, Structural)]
pub enum Next {
    /// Make this call and report its outcome.
    Call(Step),
    /// The reconcile is done.
    Finish(Action),
}

/// The message for an object outside any namespace.
pub open spec fn missing_namespace_message() -> Seq<char> {
    "Expected namespaced resource."@
}

/// The message for a specification with no worker or no storage.
pub open spec fn invalid_spec_message() -> Seq<char> {
    "Expected at least one worker and one gigabyte of storage."@
}

/// One reconcile of one object in progress: its action and how many of the
/// action's calls have settled.
#[derive(Clone, Copy, Debug, PartialEq, Eq, Structural)]
pub struct Reconciliation {
    pub action: ClusterAction,
    pub completed: usize,
}

impl Reconciliation {
    /// No more calls have settled than the action has.
    pub open spec fn wf(&self) -> bool {
        self.completed <= plan(self.action).len()
    }

    /// Starts the reconcile of `cc`.
    ///
    /// An object outside any namespace is refused; so is one that is to be
    /// created from an invalid specification.
    pub fn begin(cc: &ClusterObject) -> (r: Result<Reconciliation, Error>)
        ensures
            cc.namespace is None ==> (r matches Err(Error::UserInputError(m))
                && m@ == missing_namespace_message()),
            cc.namespace is Some && action_for(cc.deletion_requested, cc.has_finalizers())
                == ClusterAction::Create && !cc.spec.valid() ==> (r matches Err(
                Error::UserInputError(m),
            ) && m@ == invalid_spec_message()),
            cc.namespace is Some && !(action_for(cc.deletion_requested, cc.has_finalizers())
                == ClusterAction::Create && !cc.spec.valid()) ==> r == Ok::<Reconciliation, Error>(
                (Reconciliation {
                    action: action_for(cc.deletion_requested, cc.has_finalizers()),
                    completed: 0,
                }),
            ),
            r matches Ok(s) ==> s.wf(),
    {
        if cc.namespace.is_none() {
            return Err(Error::UserInputError("Expected namespaced resource.".to_owned()));
        }
        let action = determine_action(cc);
        if action == ClusterAction::Create && !cc.spec.is_valid() {
            return Err(
                Error::UserInputError(
                    "Expected at least one worker and one gigabyte of storage.".to_owned(),
                ),
            );
        }
        Ok(Reconciliation { action, completed: 0 })
    }

    /// The next call of the action, or how the loop goes on once all have
    /// settled.
    pub fn next(&self) -> (r: Next)
        requires
            self.wf(),
        ensures
            self.completed < plan(self.action).len() ==> r == Next::Call(
                plan(self.action)[self.completed as int],
            ),
            self.completed == plan(self.action).len() ==> r == Next::Finish(finish(self.action)),
    {
        match self.action {
            ClusterAction::Create => {
                if self.completed == 0 {
                    Next::Call(Step::AddFinalizer)
                } else if self.completed == 1 {
                    Next::Call(Step::Create(Resource::MasterWorkload))
                } else if self.completed == 2 {
                    Next::Call(Step::Create(Resource::WorkerWorkload))
                } else if self.completed == 3 {
                    Next::Call(Step::Create(Resource::WorkerEndpoint))
                } else if self.completed == 4 {
                    Next::Call(Step::Create(Resource::MasterEndpoint))
                } else if self.completed == 5 {
                    Next::Call(Step::Create(Resource::RegistrationTask))
                } else {
                    Next::Finish(Action::RequeueAfter(RESYNC_SECS))
                }
            },
            ClusterAction::Delete => {
                if self.completed == 0 {
                    Next::Call(Step::Delete(Resource::MasterWorkload))
                } else if self.completed == 1 {
                    Next::Call(Step::Delete(Resource::MasterEndpoint))
                } else if self.completed == 2 {
                    Next::Call(Step::Delete(Resource::WorkerWorkload))
                } else if self.completed == 3 {
                    Next::Call(Step::Delete(Resource::WorkerEndpoint))
                } else if self.completed == 4 {
                    Next::Call(Step::Delete(Resource::RegistrationTask))
                } else if self.completed == 5 {
                    Next::Call(Step::RemoveFinalizer)
                } else {
                    Next::Finish(Action::AwaitChange)
                }
            },
            ClusterAction::NoOp => Next::Finish(Action::RequeueAfter(RESYNC_SECS)),
        }
    }

    /// Takes the substrate's answer to the pending call: a call that settles
    /// moves the reconcile on, any other answer ends it with the error.
    pub fn record(&mut self, outcome: CallOutcome) -> (r: Result<(), Error>)
        requires
            old(self).wf(),
            old(self).completed < plan(old(self).action).len(),
        ensures
            final(self).wf(),
            final(self).action == old(self).action,
            settles(plan(old(self).action)[old(self).completed as int], outcome_status(outcome))
                ==> r is Ok && final(self).completed == old(self).completed + 1,
            !settles(plan(old(self).action)[old(self).completed as int], outcome_status(outcome))
                ==> final(self).completed == old(self).completed && (r matches Err(
                Error::KubeError(e),
            ) && outcome == CallOutcome::Failed(e)),
    {
        let step = match self.next() {
            Next::Call(s) => s,
            Next::Finish(_) => {
                proof {
                    assert(false);
                }
                return Ok(());
            },
        };
        match outcome {
            CallOutcome::Succeeded => {
                self.completed = self.completed + 1;
                Ok(())
            },
            CallOutcome::Failed(e) => {
                let fine = match e.status {
                    Some(s) => is_tolerated(step, s),
                    None => false,
                };
                if fine {
                    self.completed = self.completed + 1;
                    Ok(())
                } else {
                    Err(Error::KubeError(e))
                }
            },
        }
    }
}

/// Whether a refusal with `status` of `step` is tolerated.
pub fn is_tolerated(step: Step, status: u16) -> (r: bool)
    ensures
        r == tolerated(step, status),
{
    match step {
        Step::Create(_) => status == STATUS_CONFLICT,
        Step::Delete(_) => status == STATUS_NOT_FOUND,
        Step::RemoveFinalizer => status == STATUS_NOT_FOUND,
        Step::AddFinalizer => false,
    }
}

/// How the substrate answers a call when the cluster's resources that exist
/// are `store`: a create of an existing resource is refused as a conflict, a
/// delete of a missing one as not found, and a finalizer patch succeeds.
pub open spec fn substrate_status(store: Set<Resource>, step: Step) -> Option<u16> {
    match step {
        Step::Create(r) => if store.contains(r) {
            Some(STATUS_CONFLICT)
        } else {
            None
        },
        Step::Delete(r) => if store.contains(r) {
            None
        } else {
            Some(STATUS_NOT_FOUND)
        },
        _ => None,
    }
}

/// The resources that exist after the substrate has carried out a call.
pub open spec fn substrate_apply(store: Set<Resource>, step: Step) -> Set<Resource> {
    match step {
        Step::Create(r) => store.insert(r),
        Step::Delete(r) => store.remove(r),
        _ => store,
    }
}

/// A whole reconcile against the substrate: the calls of `steps` are made in
/// order while each settles. The result is the resources that exist at the end
/// and whether every call settled.
pub open spec fn run(store: Set<Resource>, steps: Seq<Step>) -> (Set<Resource>, bool)
    decreases steps.len(),
{
    if steps.len() == 0 {
        (store, true)
    } else if settles(steps[0], substrate_status(store, steps[0])) {
        run(substrate_apply(store, steps[0]), steps.drop_first())
    } else {
        (store, false)
    }
}

/// Every resource of a cluster.
pub open spec fn topology_resources() -> Set<Resource> {
    set![
        Resource::MasterWorkload,
        Resource::WorkerWorkload,
        Resource::WorkerEndpoint,
        Resource::MasterEndpoint,
        Resource::RegistrationTask,
    ]
}

/// The resources that the create calls among `steps` name.
pub open spec fn created_by(steps: Seq<Step>) -> Set<Resource> {
    Set::new(|r: Resource| exists|i: int| 0 <= i < steps.len() && steps[i] == Step::Create(r))
}

proof fn lemma_run_creates(store: Set<Resource>, steps: Seq<Step>)
    requires
        forall|i: int| 0 <= i < steps.len() ==> #[trigger] steps[i] is Create || steps[i] is AddFinalizer,
    ensures
        run(store, steps) == (store.union(created_by(steps)), true),
    decreases steps.len(),
{
    if steps.len() == 0 {
        assert(created_by(steps) =~= Set::empty());
        assert(store.union(created_by(steps)) =~= store);
    } else {
        let s = steps[0];
        let rest = steps.drop_first();
        assert forall|i: int| 0 <= i < rest.len() implies #[trigger] rest[i] is Create
            || rest[i] is AddFinalizer by {
            assert(rest[i] == steps[i + 1]);
        }
        lemma_run_creates(substrate_apply(store, s), rest);
        assert forall|r: Resource| #[trigger] created_by(steps).contains(r) <==> (
        created_by(rest).contains(r) || s == Step::Create(r)) by {
            if created_by(steps).contains(r) {
                let i = choose|i: int| 0 <= i < steps.len() && steps[i] == Step::Create(r);
                if i > 0 {
                    assert(rest[i - 1] == Step::Create(r));
                }
            }
            if created_by(rest).contains(r) {
                let i = choose|i: int| 0 <= i < rest.len() && rest[i] == Step::Create(r);
                assert(steps[i + 1] == Step::Create(r));
            }
            if s == Step::Create(r) {
                assert(steps[0] == Step::Create(r));
            }
        }
        assert(substrate_apply(store, s).union(created_by(rest)) =~= store.union(
            created_by(steps),
        ));
    }
}

/// Creating a cluster twice in a row is the same as creating it once: both
/// reconciles settle every call, the first leaves exactly the cluster's
/// resources added, and the second changes nothing.
pub proof fn lemma_create_idempotent(store: Set<Resource>)
    ensures
        run(store, plan(ClusterAction::Create)) == (store.union(topology_resources()), true),
        run(run(store, plan(ClusterAction::Create)).0, plan(ClusterAction::Create)) == run(
            store,
            plan(ClusterAction::Create),
        ),
{
    let p = plan(ClusterAction::Create);
    assert forall|i: int| 0 <= i < p.len() implies #[trigger] p[i] is Create
        || p[i] is AddFinalizer by {}
    assert forall|r: Resource| #[trigger] created_by(p).contains(r) <==> topology_resources().contains(
        r,
    ) by {
        if topology_resources().contains(r) {
            match r {
                Resource::MasterWorkload => assert(p[1] == Step::Create(r)),
                Resource::WorkerWorkload => assert(p[2] == Step::Create(r)),
                Resource::WorkerEndpoint => assert(p[3] == Step::Create(r)),
                Resource::MasterEndpoint => assert(p[4] == Step::Create(r)),
                Resource::RegistrationTask => assert(p[5] == Step::Create(r)),
            }
        }
    }
    assert(created_by(p) =~= topology_resources());
    lemma_run_creates(store, p);
    let once = store.union(topology_resources());
    lemma_run_creates(once, p);
    assert(once.union(topology_resources()) =~= once);
}

/// A deletion asks to remove the finalizer only once the whole topology has
/// been torn down, the master's and the workers' workloads and endpoints
/// included: the delete call of each resource stands before it in the plan
/// and has settled.
pub proof fn lemma_finalizer_removed_after_teardown(rec: Reconciliation, t: Resource)
    requires
        rec.wf(),
        rec.action == ClusterAction::Delete,
        rec.completed < plan(rec.action).len(),
        plan(rec.action)[rec.completed as int] == Step::RemoveFinalizer,
    ensures
        exists|i: int| 0 <= i < rec.completed && #[trigger] plan(rec.action)[i] == Step::Delete(t),
{
    let p = plan(ClusterAction::Delete);
    assert(rec.completed == 5);
    match t {
        Resource::MasterWorkload => assert(p[0] == Step::Delete(t)),
        Resource::MasterEndpoint => assert(p[1] == Step::Delete(t)),
        Resource::WorkerWorkload => assert(p[2] == Step::Delete(t)),
        Resource::WorkerEndpoint => assert(p[3] == Step::Delete(t)),
        Resource::RegistrationTask => assert(p[4] == Step::Delete(t)),
    }
}

/// The resources that the delete calls among `steps` name.
pub open spec fn deleted_by(steps: Seq<Step>) -> Set<Resource> {
    Set::new(|r: Resource| exists|i: int| 0 <= i < steps.len() && steps[i] == Step::Delete(r))
}

proof fn lemma_run_deletes(store: Set<Resource>, steps: Seq<Step>)
    requires
        forall|i: int| 0 <= i < steps.len() ==> #[trigger] steps[i] is Delete || steps[i] is RemoveFinalizer,
    ensures
        run(store, steps) == (store.difference(deleted_by(steps)), true),
    decreases steps.len(),
{
    if steps.len() == 0 {
        assert(store.difference(deleted_by(steps)) =~= store);
    } else {
        let s = steps[0];
        let rest = steps.drop_first();
        assert forall|i: int| 0 <= i < rest.len() implies #[trigger] rest[i] is Delete
            || rest[i] is RemoveFinalizer by {
            assert(rest[i] == steps[i + 1]);
        }
        lemma_run_deletes(substrate_apply(store, s), rest);
        assert forall|r: Resource| #[trigger] deleted_by(steps).contains(r) <==> (
        deleted_by(rest).contains(r) || s == Step::Delete(r)) by {
            if deleted_by(steps).contains(r) {
                let i = choose|i: int| 0 <= i < steps.len() && steps[i] == Step::Delete(r);
                if i > 0 {
                    assert(rest[i - 1] == Step::Delete(r));
                }
            }
            if deleted_by(rest).contains(r) {
                let i = choose|i: int| 0 <= i < rest.len() && rest[i] == Step::Delete(r);
                assert(steps[i + 1] == Step::Delete(r));
            }
            if s == Step::Delete(r) {
                assert(steps[0] == Step::Delete(r));
            }
        }
        assert(substrate_apply(store, s).difference(deleted_by(rest)) =~= store.difference(
            deleted_by(steps),
        ));
    }
}

/// A deletion settles every call whatever part of the cluster still exists,
/// so one interrupted after some teardown is finished by running it again;
/// it leaves none of the cluster's resources.
pub proof fn lemma_delete_resumable(store: Set<Resource>)
    ensures
        run(store, plan(ClusterAction::Delete)) == (store.difference(topology_resources()), true),
{
    let p = plan(ClusterAction::Delete);
    assert forall|i: int| 0 <= i < p.len() implies #[trigger] p[i] is Delete
        || p[i] is RemoveFinalizer by {}
    assert forall|r: Resource| #[trigger] deleted_by(p).contains(r) <==> topology_resources().contains(
        r,
    ) by {
        if topology_resources().contains(r) {
            match r {
                Resource::MasterWorkload => assert(p[0] == Step::Delete(r)),
                Resource::MasterEndpoint => assert(p[1] == Step::Delete(r)),
                Resource::WorkerWorkload => assert(p[2] == Step::Delete(r)),
                Resource::WorkerEndpoint => assert(p[3] == Step::Delete(r)),
                Resource::RegistrationTask => assert(p[4] == Step::Delete(r)),
            }
        }
    }
    assert(deleted_by(p) =~= topology_resources());
    lemma_run_deletes(store, p);
}

} // verus!
