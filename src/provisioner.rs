//! Declarative-provisioning strategy for managed cloud resources, with the
//! chart-release strategy as the path of services run in the cluster.

use vstd::prelude::*;

use crate::deployer::Deployment;
use crate::errors::EventDetails;
use crate::model::{default_context_keys, default_tera_context, service_type_name, DeploymentTarget, Service};
use crate::operation::{view_ops, Operation, OperationView};
use crate::outside::context_keys;
use crate::release::{
    deploy_details, deploy_stateless_service, helm_uninstall_release, release_deploy_plan, starts,
    uninstall_plan,
};

verus! {

pub open spec fn external_name_service_dir(s: Service) -> Seq<char> {
    s.spec_workspace_directory() + "/external-name-svc"@
}

/// The three template sets a managed resource needs: shared module,
/// resource module, and the in-cluster alias of the resource.
pub open spec fn render_provisioning_plan(s: Service) -> Seq<OperationView> {
    let ws = s.spec_workspace_directory();
    seq![
        OperationView::RenderTemplates { source_dir: s.terraform.common_resource_dir_path@, dest_dir: ws },
        OperationView::RenderTemplates { source_dir: s.terraform.resource_dir_path@, dest_dir: ws },
        OperationView::RenderTemplates {
            source_dir: s.helm.chart_external_name_service_dir@,
            dest_dir: external_name_service_dir(s),
        },
    ]
}

pub open spec fn provision_deploy_plan(s: Service) -> Seq<OperationView> {
    render_provisioning_plan(s) + seq![
        OperationView::ProvisionApply {
            workspace_dir: s.spec_workspace_directory(),
            dry_run: s.context.is_dry_run_deploy,
        },
    ]
}

/// Destroy, then remove the secret holding the provisioner's remote state.
pub open spec fn provision_delete_plan(s: Service, t: DeploymentTarget) -> Seq<OperationView> {
    render_provisioning_plan(s) + seq![
        OperationView::ProvisionDestroy { workspace_dir: s.spec_workspace_directory() },
        OperationView::DeleteSecret {
            namespace: t.environment.namespace@,
            name: "tfstate-default-"@ + s.id@,
        },
    ]
}

pub open spec fn deploy_log_text(s: Service) -> Seq<char> {
    if s.is_managed_service {
        "Deploying managed "@ + service_type_name(s.service_type) + " `"@ + s.spec_name_with_id() + "`"@
    } else {
        "Deploying containerized "@ + service_type_name(s.service_type) + " `"@ + s.spec_name_with_id()
            + "` on Kubernetes cluster"@
    }
}

/// The log line announcing which strategy deploys a stateful service.
pub fn deploy_log_message(service: &Service) -> (r: String)
    ensures
        r@ == deploy_log_text(*service),
{
    let mut m = if service.is_managed_service {
        String::from_str("Deploying managed ")
    } else {
        String::from_str("Deploying containerized ")
    };
    m.append(service.service_type.name().as_str());
    m.append(" `");
    m.append(service.name_with_id().as_str());
    if service.is_managed_service {
        m.append("`");
    } else {
        m.append("` on Kubernetes cluster");
    }
    m
}

fn push_provisioning_renders(q: &mut Vec<Operation>, service: &Service, ws: &String)
    requires
        ws@ == service.spec_workspace_directory(),
    ensures
        view_ops(final(q)@) == view_ops(old(q)@) + render_provisioning_plan(*service),
{
    q.push(
        Operation::RenderTemplates {
            source_dir: service.terraform.common_resource_dir_path.clone(),
            dest_dir: ws.clone(),
        },
    );
    q.push(Operation::RenderTemplates { source_dir: service.terraform.resource_dir_path.clone(), dest_dir: ws.clone() });
    let mut ext = ws.clone();
    ext.append("/external-name-svc");
    q.push(
        Operation::RenderTemplates {
            source_dir: service.helm.chart_external_name_service_dir.clone(),
            dest_dir: ext,
        },
    );
    proof {
        assert(view_ops(q@) =~= view_ops(old(q)@) + render_provisioning_plan(*service));
    }
}

/// Deploy of a stateful service: provisioning for a managed resource, the
/// chart release otherwise.
pub fn deploy_stateful_service(target: &DeploymentTarget, service: &Service, event_details: EventDetails) -> (r:
    Deployment)
    ensures
        service.is_managed_service ==> starts(r, event_details, provision_deploy_plan(*service)),
        !service.is_managed_service ==> starts(
            r,
            deploy_details(*service),
            release_deploy_plan(*service, *target),
        ),
        r.service_label@ == service.spec_name_with_id(),
        r.service_type_name@ == service_type_name(service.service_type),
        context_keys(r.template_context) == default_context_keys(service.private_port is Some),
{
    if service.is_managed_service {
        let ws = service.workspace_directory();
        let mut q: Vec<Operation> = Vec::new();
        push_provisioning_renders(&mut q, service, &ws);
        q.push(Operation::ProvisionApply { workspace_dir: ws, dry_run: service.context.is_dry_run_deploy });
        proof {
            assert(view_ops(q@) =~= provision_deploy_plan(*service));
        }
        Deployment::from_plan(
            event_details,
            service.name_with_id(),
            service.service_type.name(),
            q,
            default_tera_context(service, target),
        )
    } else {
        deploy_stateless_service(target, service)
    }
}

/// Delete of a stateful service: provisioning destroy for a managed
/// resource, the release uninstall otherwise.
pub fn delete_stateful_service(target: &DeploymentTarget, service: &Service, event_details: EventDetails) -> (r:
    Deployment)
    ensures
        service.is_managed_service ==> starts(r, event_details, provision_delete_plan(*service, *target)),
        service.is_managed_service ==> context_keys(r.template_context) == default_context_keys(
            service.private_port is Some,
        ),
        !service.is_managed_service ==> starts(
            r,
            event_details,
            uninstall_plan(service.helm.release_name@, target.environment.namespace@),
        ),
{
    if service.is_managed_service {
        let ws = service.workspace_directory();
        let mut q: Vec<Operation> = Vec::new();
        push_provisioning_renders(&mut q, service, &ws);
        q.push(Operation::ProvisionDestroy { workspace_dir: ws });
        q.push(
            Operation::DeleteSecret {
                namespace: target.environment.namespace.clone(),
                name: service.get_tfstate_name(),
            },
        );
        proof {
            assert(view_ops(q@) =~= provision_delete_plan(*service, *target));
        }
        Deployment::from_plan(
            event_details,
            service.name_with_id(),
            service.service_type.name(),
            q,
            default_tera_context(service, target),
        )
    } else {
        helm_uninstall_release(&target.environment, service.helm.release_name.as_str(), event_details)
    }
}

} // verus!
