use vstd::prelude::*;

use crate::model::{env_list_eq, text_opt_eq, EnvVar};
use crate::text_map::{text_map_opt_eq, text_map_opt_view};
use crate::workload::{
    Container, ContainerView, Volume, VolumeMount, VolumeSource, VolumeView, Workload, WorkloadSpec,
    containers_view, env_opt_view, mounts_opt_view, mounts_view, volumes_view,
};

verus! {

/// The volumes of a workload spec's pod; none where it has no pod or no volumes.
pub open spec fn pod_volumes(s: WorkloadSpec) -> Seq<VolumeView> {
    match s.pod {
        Some(p) => match p.volumes {
            Some(v) => volumes_view(v@),
            None => Seq::empty(),
        },
        None => Seq::empty(),
    }
}

/// Two volume lists differ at a position that both have. Volumes that only the
/// longer list has are no drift.
pub open spec fn volumes_differ(a: Seq<VolumeView>, b: Seq<VolumeView>) -> bool {
    exists|i: int| 0 <= i < a.len() && i < b.len() && #[trigger] a[i] != #[trigger] b[i]
}

/// Two containers differ in image, environment or mounts.
pub open spec fn container_differs(a: ContainerView, b: ContainerView) -> bool {
    a.1 != b.1 || a.3 != b.3 || a.4 != b.4
}

/// Two container lists differ at a position that both have.
pub open spec fn containers_differ(a: Seq<ContainerView>, b: Seq<ContainerView>) -> bool {
    exists|i: int| 0 <= i < a.len() && i < b.len() && container_differs(#[trigger] a[i], #[trigger] b[i])
}

/// The observed workload has drifted from the desired one: where both have a spec,
/// the replica count, the workload annotations, a volume at a shared position, or
/// the image, environment or mounts of a container at a shared position differ.
pub open spec fn drifted(existing: Workload, desired: Workload) -> bool {
    match (existing.spec, desired.spec) {
        (Some(es), Some(ds)) => {
            ||| es.replicas != ds.replicas
            ||| text_map_opt_view(existing.annotations) != text_map_opt_view(desired.annotations)
            ||| volumes_differ(pod_volumes(es), pod_volumes(ds))
            ||| (es.pod is Some && ds.pod is Some && containers_differ(
                containers_view(es.pod->0.containers@),
                containers_view(ds.pod->0.containers@),
            ))
        },
        _ => false,
    }
}

fn volume_eq(a: &Volume, b: &Volume) -> (r: bool)
    ensures
        r == (a@ == b@),
{
    if a.name != b.name {
        return false;
    }
    match &a.source {
        VolumeSource::EmptyDir => match &b.source {
            VolumeSource::EmptyDir => true,
            _ => false,
        },
        VolumeSource::ConfigMap { name: n1, default_mode: m1 } => match &b.source {
            VolumeSource::ConfigMap { name: n2, default_mode: m2 } => *n1 == *n2 && *m1 == *m2,
            _ => false,
        },
        VolumeSource::Secret { secret_name: n1, default_mode: m1 } => match &b.source {
            VolumeSource::Secret { secret_name: n2, default_mode: m2 } => text_opt_eq(n1, n2)
                && *m1 == *m2,
            _ => false,
        },
        VolumeSource::Other(t1) => match &b.source {
            VolumeSource::Other(t2) => *t1 == *t2,
            _ => false,
        },
    }
}

fn mount_eq(a: &VolumeMount, b: &VolumeMount) -> (r: bool)
    ensures
        r == (a@ == b@),
{
    a.name == b.name && a.mount_path == b.mount_path && a.read_only == b.read_only
}

fn mounts_opt_eq(a: &Option<Vec<VolumeMount>>, b: &Option<Vec<VolumeMount>>) -> (r: bool)
    ensures
        r == (mounts_opt_view(*a) == mounts_opt_view(*b)),
{
    match a {
        None => b.is_none(),
        Some(x) => match b {
            None => false,
            Some(y) => {
                if x.len() != y.len() {
                    assert(mounts_view(x@).len() != mounts_view(y@).len());
                    return false;
                }
                let mut i: usize = 0;
                #[verifier::loop_isolation(false)]
                while i < x.len()
                    invariant
                        x@.len() == y@.len(),
                        i <= x@.len(),
                        forall|j: int| 0 <= j < i ==> x@[j]@ == y@[j]@,
                    decreases x@.len() - i,
                {
                    if !mount_eq(&x[i], &y[i]) {
                        assert(mounts_view(x@)[i as int] != mounts_view(y@)[i as int]);
                        return false;
                    }
                    i = i + 1;
                }
                assert(mounts_view(x@) =~= mounts_view(y@));
                true
            },
        },
    }
}

fn env_opt_eq(a: &Option<Vec<EnvVar>>, b: &Option<Vec<EnvVar>>) -> (r:
    bool)
    ensures
        r == (env_opt_view(*a) == env_opt_view(*b)),
{
    match a {
        None => b.is_none(),
        Some(x) => match b {
            None => false,
            Some(y) => env_list_eq(x, y),
        },
    }
}

fn container_fields_differ(a: &Container, b: &Container) -> (r: bool)
    ensures
        r == container_differs(a@, b@),
{
    !text_opt_eq(&a.image, &b.image) || !env_opt_eq(&a.env, &b.env) || !mounts_opt_eq(
        &a.volume_mounts,
        &b.volume_mounts,
    )
}

fn no_volumes() -> (r: Vec<Volume>)
    ensures
        r@.len() == 0,
{
    Vec::new()
}

/// Whether `existing` has drifted from `desired` (see `drifted`).
pub fn has_drifted(existing: &Workload, desired: &Workload) -> (r: bool)
    requires
        existing.wf(),
        desired.wf(),
    ensures
        r == drifted(*existing, *desired),
{
    let es = match &existing.spec {
        Some(s) => s,
        None => return false,
    };
    let ds = match &desired.spec {
        Some(s) => s,
        None => return false,
    };
    if es.replicas != ds.replicas {
        return true;
    }
    if !text_map_opt_eq(&existing.annotations, &desired.annotations) {
        return true;
    }
    let empty = no_volumes();
    let ev: &Vec<Volume> = match &es.pod {
        Some(p) => match &p.volumes {
            Some(v) => v,
            None => &empty,
        },
        None => &empty,
    };
    let dv: &Vec<Volume> = match &ds.pod {
        Some(p) => match &p.volumes {
            Some(v) => v,
            None => &empty,
        },
        None => &empty,
    };
    assert(volumes_view(ev@) == pod_volumes(*es));
    assert(volumes_view(dv@) == pod_volumes(*ds));
    let mut i: usize = 0;
    #[verifier::loop_isolation(false)]
    while i < ev.len() && i < dv.len()
        invariant
            i <= ev@.len(),
            forall|j: int| 0 <= j < i && j < dv@.len() ==> ev@[j]@ == dv@[j]@,
        decreases ev@.len() - i,
    {
        if !volume_eq(&ev[i], &dv[i]) {
            assert(volumes_view(ev@)[i as int] != volumes_view(dv@)[i as int]);
            return true;
        }
        i = i + 1;
    }
    assert(!volumes_differ(volumes_view(ev@), volumes_view(dv@))) by {
        assert forall|j: int| 0 <= j < ev@.len() && j < dv@.len() implies volumes_view(ev@)[j]
            == volumes_view(dv@)[j] by {
            assert(ev@[j]@ == dv@[j]@);
        }
    }
    if let Some(ep) = &es.pod {
        if let Some(dp) = &ds.pod {
            let mut k: usize = 0;
            #[verifier::loop_isolation(false)]
            while k < ep.containers.len() && k < dp.containers.len()
                invariant
                    k <= ep.containers@.len(),
                    forall|j: int|
                        0 <= j < k && j < dp.containers@.len() ==> !container_differs(
                            ep.containers@[j]@,
                            dp.containers@[j]@,
                        ),
                decreases ep.containers@.len() - k,
            {
                if container_fields_differ(&ep.containers[k], &dp.containers[k]) {
                    assert(containers_view(ep.containers@)[k as int] == ep.containers@[k as int]@);
                    assert(containers_view(dp.containers@)[k as int] == dp.containers@[k as int]@);
                    return true;
                }
                k = k + 1;
            }
            assert(!containers_differ(
                containers_view(ep.containers@),
                containers_view(dp.containers@),
            )) by {
                assert forall|j: int|
                    0 <= j < ep.containers@.len() && j < dp.containers@.len() implies !container_differs(
                    containers_view(ep.containers@)[j],
                    containers_view(dp.containers@)[j],
                ) by {
                    assert(!container_differs(ep.containers@[j]@, dp.containers@[j]@));
                }
            }
        }
    }
    false
}

/// A workload is never drifted from itself.
pub proof fn lemma_no_drift_from_itself(w: Workload)
    ensures
        !drifted(w, w),
{
}

} // verus!
