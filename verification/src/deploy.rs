//! The deploy decision: whether an existing relay pod can be kept or must be
//! replaced.
//!
//! Deployment is idempotent: a pod equivalent to the desired one (same image
//! and same first container port) is left alone; a differing one is deleted
//! and recreated; a missing one is created. The cluster calls themselves —
//! reading the existing pod, deleting, creating, waiting for readiness —
//! happen outside; this module decides, on the facts read from the pod, what
//! those calls must do.

use vstd::prelude::*;

verus! {

/// Seconds to wait for the relay pod to start, or to be deleted, before the
/// deployment is reported as failed.
pub const POD_WAIT_SECS: u64 = 30;

/// What the decision reads from a pod: the image of its first container (as
/// the image reference's bytes; absent if the pod carries none) and that
/// container's first declared port.
#[derive(Clone, Debug, PartialEq, Eq)]
pub struct PodFacts {
    pub image: Option<Vec<u8>>,
    pub container_port: i32,
}

/// Two pods are equivalent when their images and container ports agree.
pub open spec fn spec_pods_equal(a: PodFacts, b: PodFacts) -> bool {
    &&& match (a.image, b.image) {
        (Some(x), Some(y)) => x@ == y@,
        (None, None) => true,
        _ => false,
    }
    &&& a.container_port == b.container_port
}

/// Compare two byte strings.
pub fn bytes_eq(a: &Vec<u8>, b: &Vec<u8>) -> (r: bool)
    ensures
        r <==> a@ == b@,
{
    if a.len() != b.len() {
        return false;
    }
    let mut i: usize = 0;
    while i < a.len()
        invariant
            i <= a.len(),
            a.len() == b.len(),
            forall|j: int| 0 <= j < i ==> a@[j] == b@[j],
        decreases a.len() - i,
    {
        if a[i] != b[i] {
            return false;
        }
        i = i + 1;
    }
    proof {
        assert(a@ =~= b@);
    }
    true
}

/// Does an existing pod match the desired one, so that deployment may keep
/// it?
pub fn are_pods_equal(existing: &PodFacts, desired: &PodFacts) -> (r: bool)
    ensures
        r == spec_pods_equal(*existing, *desired),
{
    let images_equal = match (&existing.image, &desired.image) {
        (Some(x), Some(y)) => bytes_eq(x, y),
        (None, None) => true,
        _ => false,
    };
    images_equal && existing.container_port == desired.container_port
}

/// The deployment's plan for the pod.
#[derive(Clone, Copy, Debug, PartialEq, Eq, Structural)]
pub enum DeployPlan {
    /// No pod of that name exists: create the desired one and wait for it to
    /// run.
    Create,
    /// A pod exists but differs: delete it, wait for the deletion, then
    /// create the desired one and wait for it to run.
    Recreate,
    /// An equivalent pod exists: leave it alone.
    Keep,
}

/// What the plan must be, given what exists.
pub open spec fn spec_plan_deploy(existing: Option<PodFacts>, desired: PodFacts) -> DeployPlan {
    match existing {
        None => DeployPlan::Create,
        Some(e) => if spec_pods_equal(e, desired) {
            DeployPlan::Keep
        } else {
            DeployPlan::Recreate
        },
    }
}

/// Decide what deployment does with the pod: keep an equivalent one, replace
/// a differing one, create a missing one. The service is applied in every
/// case.
pub fn plan_deploy(existing: &Option<PodFacts>, desired: &PodFacts) -> (p: DeployPlan)
    ensures
        p == spec_plan_deploy(*existing, *desired),
{
    match existing {
        None => DeployPlan::Create,
        Some(e) => {
            if are_pods_equal(e, desired) {
                DeployPlan::Keep
            } else {
                DeployPlan::Recreate
            }
        },
    }
}

} // verus!
