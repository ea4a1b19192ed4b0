//! Requests the deployers hand to the cluster, chart-manager and provisioner
//! collaborators, and what those collaborators report back.

use vstd::prelude::*;

use crate::errors::CommandError;

verus! {

/// Lifecycle phase of a pod, as reported by the cluster.
#[derive(Clone, Copy, PartialEq, Eq, Structural, Debug)]
pub enum PodPhase {
    Pending,
    Running,
    Succeeded,
    Failed,
    Unknown,
}

/// One pod of a pod listing.
#[derive(Debug)]
pub struct PodStatus {
    pub namespace: String,
    pub name: String,
    pub phase: PodPhase,
}

/// Workload kind whose replicas are scaled.
#[derive(Clone, Copy, PartialEq, Eq, Structural, Debug)]
pub enum ScalingKind {
    Deployment,
    Statefulset,
}

pub open spec fn opt_text(o: Option<String>) -> Option<Seq<char>> {
    match o {
        Some(s) => Some(s@),
        None => None,
    }
}

fn copy_opt_text(o: &Option<String>) -> (r: Option<String>)
    ensures
        r == *o,
{
    match o {
        Some(s) => Some(s.clone()),
        None => None,
    }
}

/// One request to a collaborator.
#[derive(Debug)]
#[allow(inconsistent_fields)]
pub enum Operation {
    /// Render a template directory into a destination directory.
    RenderTemplates { source_dir: String, dest_dir: String },
    /// Create the namespace unless it exists, with an optional TTL label.
    CreateNamespace { namespace: String, ttl_seconds: Option<u32> },
    /// Chart-manager upgrade (install or update) of a release.
    UpgradeRelease {
        release_name: String,
        chart_dir: String,
        namespace: String,
        timeout_seconds: i64,
        values_file: Option<String>,
        atomic: bool,
        selector: Option<String>,
    },
    ListPods { namespace: String, selector: String },
    DeletePod { namespace: String, name: String },
    /// Bounded-retry readiness poll of the pods of a selector.
    WaitPodReady { namespace: String, selector: String },
    UninstallRelease { release_name: String, namespace: String },
    /// Provisioner init, validate, plan and (unless a dry run) apply.
    ProvisionApply { workspace_dir: String, dry_run: bool },
    /// Provisioner init, validate and destroy.
    ProvisionDestroy { workspace_dir: String },
    DeleteSecret { namespace: String, name: String },
    ScaleReplicas { namespace: String, kind: ScalingKind, selector: String, replicas: usize },
}

/// Mathematical form of an `Operation`.
#[allow(inconsistent_fields)]
pub enum OperationView {
    RenderTemplates { source_dir: Seq<char>, dest_dir: Seq<char> },
    CreateNamespace { namespace: Seq<char>, ttl_seconds: Option<u32> },
    UpgradeRelease {
        release_name: Seq<char>,
        chart_dir: Seq<char>,
        namespace: Seq<char>,
        timeout_seconds: i64,
        values_file: Option<Seq<char>>,
        atomic: bool,
        selector: Option<Seq<char>>,
    },
    ListPods { namespace: Seq<char>, selector: Seq<char> },
    DeletePod { namespace: Seq<char>, name: Seq<char> },
    WaitPodReady { namespace: Seq<char>, selector: Seq<char> },
    UninstallRelease { release_name: Seq<char>, namespace: Seq<char> },
    ProvisionApply { workspace_dir: Seq<char>, dry_run: bool },
    ProvisionDestroy { workspace_dir: Seq<char> },
    DeleteSecret { namespace: Seq<char>, name: Seq<char> },
    ScaleReplicas { namespace: Seq<char>, kind: ScalingKind, selector: Seq<char>, replicas: usize },
}

impl View for Operation {
    type V = OperationView;

    open spec fn view(&self) -> OperationView {
        match self {
            Operation::RenderTemplates { source_dir, dest_dir } => OperationView::RenderTemplates {
                source_dir: source_dir@,
                dest_dir: dest_dir@,
            },
            Operation::CreateNamespace { namespace, ttl_seconds } => OperationView::CreateNamespace {
                namespace: namespace@,
                ttl_seconds: *ttl_seconds,
            },
            Operation::UpgradeRelease {
                release_name,
                chart_dir,
                namespace,
                timeout_seconds,
                values_file,
                atomic,
                selector,
            } => OperationView::UpgradeRelease {
                release_name: release_name@,
                chart_dir: chart_dir@,
                namespace: namespace@,
                timeout_seconds: *timeout_seconds,
                values_file: opt_text(*values_file),
                atomic: *atomic,
                selector: opt_text(*selector),
            },
            Operation::ListPods { namespace, selector } => OperationView::ListPods {
                namespace: namespace@,
                selector: selector@,
            },
            Operation::DeletePod { namespace, name } => OperationView::DeletePod {
                namespace: namespace@,
                name: name@,
            },
            Operation::WaitPodReady { namespace, selector } => OperationView::WaitPodReady {
                namespace: namespace@,
                selector: selector@,
            },
            Operation::UninstallRelease { release_name, namespace } => OperationView::UninstallRelease {
                release_name: release_name@,
                namespace: namespace@,
            },
            Operation::ProvisionApply { workspace_dir, dry_run } => OperationView::ProvisionApply {
                workspace_dir: workspace_dir@,
                dry_run: *dry_run,
            },
            Operation::ProvisionDestroy { workspace_dir } => OperationView::ProvisionDestroy {
                workspace_dir: workspace_dir@,
            },
            Operation::DeleteSecret { namespace, name } => OperationView::DeleteSecret {
                namespace: namespace@,
                name: name@,
            },
            Operation::ScaleReplicas { namespace, kind, selector, replicas } => OperationView::ScaleReplicas {
                namespace: namespace@,
                kind: *kind,
                selector: selector@,
                replicas: *replicas,
            },
        }
    }
}

impl Operation {
    /// A field-for-field copy.
    pub fn duplicate(&self) -> (r: Self)
        ensures
            r == *self,
    {
        match self {
            Operation::RenderTemplates { source_dir, dest_dir } => Operation::RenderTemplates {
                source_dir: source_dir.clone(),
                dest_dir: dest_dir.clone(),
            },
            Operation::CreateNamespace { namespace, ttl_seconds } => Operation::CreateNamespace {
                namespace: namespace.clone(),
                ttl_seconds: *ttl_seconds,
            },
            Operation::UpgradeRelease {
                release_name,
                chart_dir,
                namespace,
                timeout_seconds,
                values_file,
                atomic,
                selector,
            } => Operation::UpgradeRelease {
                release_name: release_name.clone(),
                chart_dir: chart_dir.clone(),
                namespace: namespace.clone(),
                timeout_seconds: *timeout_seconds,
                values_file: copy_opt_text(values_file),
                atomic: *atomic,
                selector: copy_opt_text(selector),
            },
            Operation::ListPods { namespace, selector } => Operation::ListPods {
                namespace: namespace.clone(),
                selector: selector.clone(),
            },
            Operation::DeletePod { namespace, name } => Operation::DeletePod {
                namespace: namespace.clone(),
                name: name.clone(),
            },
            Operation::WaitPodReady { namespace, selector } => Operation::WaitPodReady {
                namespace: namespace.clone(),
                selector: selector.clone(),
            },
            Operation::UninstallRelease { release_name, namespace } => Operation::UninstallRelease {
                release_name: release_name.clone(),
                namespace: namespace.clone(),
            },
            Operation::ProvisionApply { workspace_dir, dry_run } => Operation::ProvisionApply {
                workspace_dir: workspace_dir.clone(),
                dry_run: *dry_run,
            },
            Operation::ProvisionDestroy { workspace_dir } => Operation::ProvisionDestroy {
                workspace_dir: workspace_dir.clone(),
            },
            Operation::DeleteSecret { namespace, name } => Operation::DeleteSecret {
                namespace: namespace.clone(),
                name: name.clone(),
            },
            Operation::ScaleReplicas { namespace, kind, selector, replicas } => Operation::ScaleReplicas {
                namespace: namespace.clone(),
                kind: *kind,
                selector: selector.clone(),
                replicas: *replicas,
            },
        }
    }
}

pub open spec fn view_ops(ops: Seq<Operation>) -> Seq<OperationView> {
    ops.map_values(|o: Operation| o@)
}

/// What a collaborator reports after performing an operation.
#[derive(Debug)]
pub enum Outcome {
    Completed,
    /// The object to create was already there.
    AlreadyExists,
    Failed(CommandError),
    Pods(Vec<PodStatus>),
    /// Result of the readiness poll: `Some(true)` when a pod is ready.
    Readiness(Option<bool>),
}

pub open spec fn is_pending(p: PodStatus) -> bool {
    p.phase is Pending
}

/// The pods that the sweep targets: exactly the pending ones, in listing order.
pub fn pending_pods(pods: &Vec<PodStatus>) -> (r: Vec<Operation>)
    ensures
        view_ops(r@) == sweep_ops(pods@),
{
    let mut r: Vec<Operation> = Vec::new();
    let mut i: usize = 0;
    while i < pods.len()
        invariant
            i <= pods@.len(),
            view_ops(r@) == sweep_ops(pods@.subrange(0, i as int)),
        decreases pods@.len() - i,
    {
        proof {
            assert(pods@.subrange(0, i + 1).drop_last() == pods@.subrange(0, i as int));
        }
        let p = &pods[i];
        match p.phase {
            PodPhase::Pending => {
                r.push(Operation::DeletePod { namespace: p.namespace.clone(), name: p.name.clone() });
            },
            _ => {},
        }
        proof {
            assert(view_ops(r@) =~= sweep_ops(pods@.subrange(0, i + 1)));
        }
        i = i + 1;
    }
    proof {
        assert(pods@.subrange(0, pods@.len() as int) == pods@);
    }
    r
}

/// Deletion requests for the pending pods of a listing, in listing order.
pub open spec fn sweep_ops(pods: Seq<PodStatus>) -> Seq<OperationView>
    decreases pods.len(),
{
    if pods.len() == 0 {
        Seq::empty()
    } else {
        let p = pods.last();
        let before = sweep_ops(pods.drop_last());
        if is_pending(p) {
            before.push(OperationView::DeletePod { namespace: p.namespace@, name: p.name@ })
        } else {
            before
        }
    }
}

} // verus!
