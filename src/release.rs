//! Chart-release strategy: render, ensure the namespace, upgrade the release
//! atomically, sweep pending pods, then gate on readiness. Also the release
//! uninstall and replica scaling used to pause.

use vstd::prelude::*;

use crate::deployer::Deployment;
use crate::errors::{EnvironmentStep, EventDetails};
use crate::model::{
    default_context_keys, default_tera_context, service_type_name, DeploymentTarget, Environment, Service,
    ServiceType,
};
use crate::operation::{opt_text, view_ops, Operation, OperationView, ScalingKind};
use crate::outside::{context_keys, new_context};

verus! {

/// Timeout of the chart-manager upgrade, in seconds.
pub const UPGRADE_TIMEOUT_SECONDS: i64 = 600;

pub open spec fn selector_text(s: Service) -> Seq<char> {
    match s.selector {
        Some(x) => x@,
        None => Seq::empty(),
    }
}

/// Operations of a chart-release deploy, in order. Database-typed services
/// get the values overlay rendered and passed as a value file.
pub open spec fn release_deploy_plan(s: Service, t: DeploymentTarget) -> Seq<OperationView> {
    let ws = s.spec_workspace_directory();
    let ns = t.environment.namespace@;
    let is_db = s.service_type is Database;
    seq![OperationView::RenderTemplates { source_dir: s.helm.chart_dir@, dest_dir: ws }] + (if is_db {
        seq![OperationView::RenderTemplates { source_dir: s.helm.chart_values_dir@, dest_dir: ws }]
    } else {
        Seq::empty()
    }) + seq![
        OperationView::CreateNamespace { namespace: ns, ttl_seconds: s.context.resource_expiration_in_seconds },
        OperationView::UpgradeRelease {
            release_name: s.helm.release_name@,
            chart_dir: ws,
            namespace: ns,
            timeout_seconds: 600,
            values_file: if is_db {
                Some(ws + "/q-values.yaml"@)
            } else {
                None
            },
            atomic: true,
            selector: opt_text(s.selector),
        },
        OperationView::ListPods { namespace: ns, selector: selector_text(s) },
        OperationView::WaitPodReady { namespace: ns, selector: selector_text(s) },
    ]
}

/// Whether a run is fresh: nothing handed out, nothing decided.
pub open spec fn starts(r: Deployment, details: EventDetails, plan: Seq<OperationView>) -> bool {
    &&& r.wf()
    &&& !r.is_finished()
    &&& r.current is None
    &&& r.remaining() == plan
    &&& r.details == details
}

pub open spec fn deploy_details(s: Service) -> EventDetails {
    EventDetails {
        organization_id: s.context.organization_id,
        cluster_id: s.context.cluster_id,
        execution_id: s.context.execution_id,
        stage: EnvironmentStep::Deploy,
    }
}

pub(crate) fn selector_or_empty(service: &Service) -> (r: String)
    ensures
        r@ == selector_text(*service),
{
    match &service.selector {
        Some(s) => s.clone(),
        None => String::new(),
    }
}

pub(crate) fn copy_selector(service: &Service) -> (r: Option<String>)
    ensures
        opt_text(r) == opt_text(service.selector),
{
    match &service.selector {
        Some(s) => Some(s.clone()),
        None => None,
    }
}

/// The chart-release deploy of a containerized service.
pub fn deploy_stateless_service(target: &DeploymentTarget, service: &Service) -> (r: Deployment)
    ensures
        starts(r, deploy_details(*service), release_deploy_plan(*service, *target)),
        r.service_label@ == service.spec_name_with_id(),
        r.service_type_name@ == service_type_name(service.service_type),
        context_keys(r.template_context) == default_context_keys(service.private_port is Some),
{
    let ws = service.workspace_directory();
    let ns = &target.environment.namespace;
    let is_db = match service.service_type {
        ServiceType::Database(_) => true,
        _ => false,
    };
    let mut q: Vec<Operation> = Vec::new();
    q.push(Operation::RenderTemplates { source_dir: service.helm.chart_dir.clone(), dest_dir: ws.clone() });
    if is_db {
        q.push(
            Operation::RenderTemplates {
                source_dir: service.helm.chart_values_dir.clone(),
                dest_dir: ws.clone(),
            },
        );
    }
    q.push(
        Operation::CreateNamespace {
            namespace: ns.clone(),
            ttl_seconds: service.context.resource_expiration_in_seconds,
        },
    );
    let values_file = if is_db {
        let mut f = ws.clone();
        f.append("/q-values.yaml");
        Some(f)
    } else {
        None
    };
    q.push(
        Operation::UpgradeRelease {
            release_name: service.helm.release_name.clone(),
            chart_dir: ws,
            namespace: ns.clone(),
            timeout_seconds: UPGRADE_TIMEOUT_SECONDS,
            values_file,
            atomic: true,
            selector: copy_selector(service),
        },
    );
    q.push(Operation::ListPods { namespace: ns.clone(), selector: selector_or_empty(service) });
    q.push(Operation::WaitPodReady { namespace: ns.clone(), selector: selector_or_empty(service) });
    proof {
        assert(view_ops(q@) =~= release_deploy_plan(*service, *target));
    }
    Deployment::from_plan(
        service.get_event_details(EnvironmentStep::Deploy),
        service.name_with_id(),
        service.service_type.name(),
        q,
        default_tera_context(service, target),
    )
}

/// Same as `deploy_stateless_service`, for services declared by users.
pub fn deploy_user_stateless_service(target: &DeploymentTarget, service: &Service) -> (r: Deployment)
    ensures
        starts(r, deploy_details(*service), release_deploy_plan(*service, *target)),
        r.service_label@ == service.spec_name_with_id(),
        r.service_type_name@ == service_type_name(service.service_type),
        context_keys(r.template_context) == default_context_keys(service.private_port is Some),
{
    deploy_stateless_service(target, service)
}

/// Recovery after a failed chart-release deploy: nothing to do, the atomic
/// upgrade already rolled the release back.
pub fn deploy_stateless_service_error(target: &DeploymentTarget, service: &Service) -> (r: Result<
    (),
    crate::errors::EngineError,
>)
    ensures
        r is Ok,
{
    Ok(())
}

pub open spec fn uninstall_plan(release_name: Seq<char>, namespace: Seq<char>) -> Seq<OperationView> {
    seq![OperationView::UninstallRelease { release_name, namespace }]
}

/// Uninstalls a release from the environment's namespace.
pub fn helm_uninstall_release(environment: &Environment, helm_release_name: &str, event_details: EventDetails) -> (r:
    Deployment)
    ensures
        starts(r, event_details, uninstall_plan(helm_release_name@, environment.namespace@)),
{
    let mut q: Vec<Operation> = Vec::new();
    q.push(
        Operation::UninstallRelease {
            release_name: String::from_str(helm_release_name),
            namespace: environment.namespace.clone(),
        },
    );
    proof {
        assert(view_ops(q@) =~= uninstall_plan(helm_release_name@, environment.namespace@));
    }
    Deployment::from_plan(event_details, String::new(), String::new(), q, new_context())
}

/// Chart-release delete: uninstall the service's release.
pub fn delete_stateless_service(target: &DeploymentTarget, service: &Service, event_details: EventDetails) -> (r:
    Deployment)
    ensures
        starts(r, event_details, uninstall_plan(service.helm.release_name@, target.environment.namespace@)),
{
    helm_uninstall_release(&target.environment, service.helm.release_name.as_str(), event_details)
}

pub open spec fn scale_plan(namespace: Seq<char>, kind: ScalingKind, selector: Seq<char>, replicas: usize) -> Seq<
    OperationView,
> {
    seq![OperationView::ScaleReplicas { namespace, kind, selector, replicas }]
}

pub open spec fn scale_down_details(s: Service) -> EventDetails {
    EventDetails { stage: EnvironmentStep::ScaleDown, ..deploy_details(s) }
}

/// Scales the stateful set of a self-hosted database (selector
/// "databaseId=<id>"); a managed database is left as it is.
pub fn scale_down_database(target: &DeploymentTarget, service: &Service, replicas_count: usize) -> (r: Deployment)
    ensures
        service.is_managed_service ==> starts(r, scale_down_details(*service), Seq::empty()),
        !service.is_managed_service ==> starts(
            r,
            scale_down_details(*service),
            scale_plan(
                target.environment.namespace@,
                ScalingKind::Statefulset,
                "databaseId="@ + service.id@,
                replicas_count,
            ),
        ),
{
    let details = service.get_event_details(EnvironmentStep::ScaleDown);
    let mut q: Vec<Operation> = Vec::new();
    if !service.is_managed_service {
        let mut selector = String::from_str("databaseId=");
        selector.append(service.id.as_str());
        q.push(
            Operation::ScaleReplicas {
                namespace: target.environment.namespace.clone(),
                kind: ScalingKind::Statefulset,
                selector,
                replicas: replicas_count,
            },
        );
    }
    proof {
        if service.is_managed_service {
            assert(view_ops(q@) =~= Seq::empty());
        } else {
            assert(view_ops(q@) =~= scale_plan(
                target.environment.namespace@,
                ScalingKind::Statefulset,
                "databaseId="@ + service.id@,
                replicas_count,
            ));
        }
    }
    Deployment::from_plan(details, service.name_with_id(), service.service_type.name(), q, new_context())
}

/// Scales the workloads of an application selected by its selector.
pub fn scale_down_application(
    target: &DeploymentTarget,
    service: &Service,
    replicas_count: usize,
    scaling_kind: ScalingKind,
) -> (r: Deployment)
    ensures
        starts(
            r,
            scale_down_details(*service),
            scale_plan(target.environment.namespace@, scaling_kind, selector_text(*service), replicas_count),
        ),
{
    let details = service.get_event_details(EnvironmentStep::ScaleDown);
    let mut q: Vec<Operation> = Vec::new();
    q.push(
        Operation::ScaleReplicas {
            namespace: target.environment.namespace.clone(),
            kind: scaling_kind,
            selector: selector_or_empty(service),
            replicas: replicas_count,
        },
    );
    proof {
        assert(view_ops(q@) =~= scale_plan(
            target.environment.namespace@,
            scaling_kind,
            selector_text(*service),
            replicas_count,
        ));
    }
    Deployment::from_plan(details, service.name_with_id(), service.service_type.name(), q, new_context())
}

} // verus!
