//! The desired-state object of one cluster, as the reconciler reads it.
use vstd::prelude::*;

verus! {

/// Storage per worker, in gigabytes, when the specification names none.
pub const DEFAULT_WORKER_STORAGE_GB: u32 = 1;

/// What the user asks for: the number of workers and their storage.
#[derive(Clone, Copy, Debug, PartialEq, Eq, Structural)]
pub struct CitusClusterSpec {
    pub workers: i32,
    pub worker_storage: Option<u32>,
}

impl CitusClusterSpec {
    /// Storage per worker in gigabytes, the default filled in.
    pub open spec fn storage_gb_spec(&self) -> nat {
        match self.worker_storage {
            Some(gb) => gb as nat,
            None => DEFAULT_WORKER_STORAGE_GB as nat,
        }
    }

    /// At least one worker, and at least one gigabyte for each.
    pub open spec fn valid(&self) -> bool {
        self.workers >= 1 && self.storage_gb_spec() >= 1
    }

    /// Storage per worker in gigabytes, the default filled in.
    pub fn storage_gb(&self) -> (r: u32)
        ensures
            r == self.storage_gb_spec(),
    {
        match self.worker_storage {
            Some(gb) => gb,
            None => DEFAULT_WORKER_STORAGE_GB,
        }
    }

    /// At least one worker, and at least one gigabyte for each.
    pub fn is_valid(&self) -> (r: bool)
        ensures
            r == self.valid(),
    {
        self.workers >= 1 && self.storage_gb() >= 1
    }
}

/// A cluster object as observed: its identity, its specification, and the
/// metadata that the substrate manages.
#[derive(Clone, Debug)]
pub struct ClusterObject {
    pub name: String,
    pub namespace: Option<String>,
    pub spec: CitusClusterSpec,
    /// Set once deletion of the object has been requested.
    pub deletion_requested: bool,
    pub finalizers: Option<Vec<String>>,
}

/// Where an object stands in its life, derived from its metadata.
#[derive(Clone, Copy, Debug, PartialEq, Eq, Structural)]
pub enum Phase {
    /// No finalizer yet: nothing may be provisioned.
    Pending,
    /// Guarded by a finalizer and not being deleted.
    Active,
    /// Deletion has been requested.
    Terminating,
}

/// The phase of an object from its deletion marker and whether it carries
/// finalizers.
pub open spec fn phase_of(deletion_requested: bool, has_finalizers: bool) -> Phase {
    if deletion_requested {
        Phase::Terminating
    } else if has_finalizers {
        Phase::Active
    } else {
        Phase::Pending
    }
}

impl ClusterObject {
    /// The phase of the object.
    pub fn phase(&self) -> (r: Phase)
        ensures
            r == phase_of(self.deletion_requested, self.has_finalizers()),
    {
        if self.deletion_requested {
            Phase::Terminating
        } else {
            match &self.finalizers {
                Some(f) => if f.len() > 0 {
                    Phase::Active
                } else {
                    Phase::Pending
                },
                None => Phase::Pending,
            }
        }
    }

    /// The object carries at least one finalizer token.
    pub open spec fn has_finalizers(&self) -> bool {
        match self.finalizers {
            Some(f) => f@.len() > 0,
            None => false,
        }
    }
}

} // verus!
