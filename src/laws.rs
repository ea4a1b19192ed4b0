//! Properties relating the library's functions, proved over their contracts'
//! spec functions.

use vstd::prelude::*;

use crate::deployer::Deployment;
use crate::errors::EngineError;
use crate::model::{spec_fqdn, DeploymentTarget, Service};
use crate::operation::{is_pending, sweep_ops, Operation, OperationView, Outcome, PodStatus};
use crate::progress::{reporter_run, reporter_stopped, Wake};
use crate::release::release_deploy_plan;

verus! {

/// The name a service is reached under: the public name when publicly
/// accessible, "<id>-dns.<namespace>.svc.cluster.local" for a private
/// managed resource, "<sanitized name>.<namespace>.svc.cluster.local" for a
/// private service run in the cluster.
pub proof fn lemma_fqdn_shapes(s: Service, t: DeploymentTarget, fqdn: Seq<char>, is_managed: bool)
    ensures
        s.publicly_accessible ==> spec_fqdn(
            s.publicly_accessible,
            s.id@,
            s.sanitized_name@,
            t.environment.namespace@,
            fqdn,
            is_managed,
        ) == fqdn,
        !s.publicly_accessible && is_managed ==> spec_fqdn(
            s.publicly_accessible,
            s.id@,
            s.sanitized_name@,
            t.environment.namespace@,
            fqdn,
            is_managed,
        ) == s.id@ + "-dns."@ + t.environment.namespace@ + ".svc.cluster.local"@,
        !s.publicly_accessible && !is_managed ==> spec_fqdn(
            s.publicly_accessible,
            s.id@,
            s.sanitized_name@,
            t.environment.namespace@,
            fqdn,
            is_managed,
        ) == s.sanitized_name@ + "."@ + t.environment.namespace@ + ".svc.cluster.local"@,
{
}

/// A chart-release deploy ends with the readiness gate: the run can only
/// succeed after the readiness poll has been passed.
pub proof fn lemma_release_deploy_ends_with_readiness(s: Service, t: DeploymentTarget)
    ensures
        release_deploy_plan(s, t).last() is WaitPodReady,
        release_deploy_plan(s, t)[release_deploy_plan(s, t).len() - 2] is ListPods,
{
}

/// Whatever a pod listing holds, the sweep only adds pod deletions in front
/// of the remaining operations, so the readiness gate stays last.
pub proof fn lemma_sweep_keeps_readiness_last(d: Deployment, outcome: Outcome)
    requires
        d.current matches Some(Operation::ListPods { .. }),
        d.remaining().len() > 0,
        d.remaining().last() is WaitPodReady,
    ensures
        (d.followups(outcome) + d.remaining()).last() is WaitPodReady,
        forall|i: int| 0 <= i < d.followups(outcome).len() ==> (#[trigger] d.followups(outcome)[i]) is DeletePod,
{
    let f = d.followups(outcome);
    assert((f + d.remaining()).last() == d.remaining().last());
    if outcome is Pods {
        lemma_sweep_targets_only_pending(outcome->Pods_0@);
        assert forall|i: int| 0 <= i < f.len() implies (#[trigger] f[i]) is DeletePod by {
            let j = choose|j: int|
                0 <= j < outcome->Pods_0@.len() && is_pending(outcome->Pods_0@[j]) && f[i] == deletion_of(
                    outcome->Pods_0@[j],
                );
        }
    }
}

/// A pod deletion that did not fail lets the run go on, adding nothing.
pub proof fn lemma_pod_deletion_passes(d: Deployment, outcome: Outcome)
    requires
        d.current matches Some(Operation::DeletePod { .. }),
        !(outcome is Failed),
    ensures
        d.failure(outcome) is None,
        d.followups(outcome) == Seq::<OperationView>::empty(),
{
}

/// Whatever the readiness poll reports other than a ready pod (an error, a
/// not-ready answer, no answer), the run fails with the start failure error.
pub proof fn lemma_not_ready_fails(d: Deployment, outcome: Outcome)
    requires
        d.current matches Some(Operation::WaitPodReady { .. }),
        !(outcome matches Outcome::Readiness(Some(true))),
    ensures
        d.failure(outcome) matches Some(EngineError::ServiceFailedToStart { details, .. }) && details == d.details,
{
}

/// Creating a namespace that already exists is no failure, so creating it
/// again with the same labels lets the run go on.
pub proof fn lemma_namespace_creation_idempotent(d: Deployment, outcome: Outcome)
    requires
        d.current matches Some(Operation::CreateNamespace { .. }),
        outcome is AlreadyExists || outcome is Completed,
    ensures
        d.failure(outcome) is None,
        d.followups(outcome) == Seq::<OperationView>::empty(),
{
}

pub open spec fn deletion_of(p: PodStatus) -> OperationView {
    OperationView::DeletePod { namespace: p.namespace@, name: p.name@ }
}

/// The pending-pod sweep targets pending pods only, and every one of them.
pub proof fn lemma_sweep_targets_only_pending(pods: Seq<PodStatus>)
    ensures
        forall|k: int|
            0 <= k < sweep_ops(pods).len() ==> exists|j: int|
                0 <= j < pods.len() && is_pending(pods[j]) && #[trigger] sweep_ops(pods)[k] == deletion_of(pods[j]),
        forall|j: int|
            0 <= j < pods.len() && is_pending(pods[j]) ==> sweep_ops(pods).contains(#[trigger] deletion_of(pods[j])),
    decreases pods.len(),
{
    if pods.len() > 0 {
        let pre = pods.drop_last();
        lemma_sweep_targets_only_pending(pre);
        let sw = sweep_ops(pods);
        let sp = sweep_ops(pre);
        assert forall|k: int| 0 <= k < sw.len() implies exists|j: int|
            0 <= j < pods.len() && is_pending(pods[j]) && #[trigger] sw[k] == deletion_of(pods[j]) by {
            if k < sp.len() {
                assert(sw[k] == sp[k]);
                let j = choose|j: int| 0 <= j < pre.len() && is_pending(pre[j]) && sp[k] == deletion_of(pre[j]);
                assert(pods[j] == pre[j]);
            } else {
                assert(pods[pods.len() - 1] == pods.last());
            }
        }
        assert forall|j: int| 0 <= j < pods.len() && is_pending(pods[j]) implies sw.contains(
            #[trigger] deletion_of(pods[j]),
        ) by {
            if j < pods.len() - 1 {
                assert(pre[j] == pods[j]);
                assert(sp.contains(deletion_of(pre[j])));
                let k = choose|k: int| 0 <= k < sp.len() && sp[k] == deletion_of(pre[j]);
                assert(sw[k] == sp[k]);
            } else {
                assert(sw[sw.len() - 1] == deletion_of(pods[j]));
            }
        }
    }
}

/// The reporter reports once before the first wait.
pub proof fn lemma_reporter_reports_first(wakes: Seq<Wake>)
    ensures
        reporter_run(wakes).len() == wakes.len() + 1,
        reporter_run(wakes)[0] is Emit,
    decreases wakes.len(),
{
    if wakes.len() > 0 {
        lemma_reporter_reports_first(wakes.drop_last());
    }
}

/// While the task runs (every wait timed out) the reporter reports after
/// every tick.
pub proof fn lemma_reporter_reports_while_running(wakes: Seq<Wake>)
    requires
        forall|i: int| 0 <= i < wakes.len() ==> wakes[i] is Timeout,
    ensures
        !reporter_stopped(wakes),
        forall|i: int| 0 <= i < reporter_run(wakes).len() ==> reporter_run(wakes)[i] is Emit,
    decreases wakes.len(),
{
    lemma_reporter_reports_first(wakes);
    if wakes.len() > 0 {
        let pre = wakes.drop_last();
        assert forall|i: int| 0 <= i < pre.len() implies pre[i] is Timeout by {
            assert(pre[i] == wakes[i]);
        }
        lemma_reporter_reports_while_running(pre);
        assert(wakes.last() == wakes[wakes.len() - 1]);
        lemma_reporter_reports_first(pre);
    }
}

/// Once a stop signal or a disconnection has been seen, the reporter stays
/// stopped and reports nothing more.
pub proof fn lemma_reporter_silent_after_stop(wakes: Seq<Wake>, i: int)
    requires
        0 <= i < wakes.len(),
        !(wakes[i] is Timeout),
    ensures
        reporter_stopped(wakes),
        forall|j: int| i + 1 <= j < reporter_run(wakes).len() ==> reporter_run(wakes)[j] is Halt,
    decreases wakes.len(),
{
    lemma_reporter_reports_first(wakes);
    let pre = wakes.drop_last();
    lemma_reporter_reports_first(pre);
    if i < wakes.len() - 1 {
        assert(pre[i] == wakes[i]);
        lemma_reporter_silent_after_stop(pre, i);
        assert forall|j: int| i + 1 <= j < reporter_run(wakes).len() implies reporter_run(wakes)[j] is Halt by {
            if j < reporter_run(pre).len() {
                assert(reporter_run(wakes)[j] == reporter_run(pre)[j]);
            }
        }
    } else {
        assert(wakes.last() == wakes[i]);
    }
}

} // verus!
