use service_orchestrator::deployer::{Deployment, Step};
use service_orchestrator::errors::{CommandError, EngineError, EnvironmentStep, EventDetails};
use service_orchestrator::model::{
    Action, ClusterInfo, DatabaseType, DeploymentTarget, Environment, ExecutionContext, HelmInfo, Service,
    ServiceType, TerraformInfo,
};
use service_orchestrator::operation::{Operation, Outcome, PodPhase, PodStatus, ScalingKind};
use service_orchestrator::provisioner::{delete_stateful_service, deploy_stateful_service};
use service_orchestrator::release::{
    deploy_stateless_service, deploy_stateless_service_error, delete_stateless_service, scale_down_application,
    scale_down_database,
};

fn target(namespace: &str) -> DeploymentTarget {
    DeploymentTarget {
        environment: Environment {
            namespace: namespace.to_string(),
            id: "env".to_string(),
            long_id: uuid::Uuid::nil(),
            owner_id: "owner".to_string(),
            project_id: "project".to_string(),
            project_long_id: uuid::Uuid::nil(),
            organization_id: "org".to_string(),
            organization_long_id: uuid::Uuid::nil(),
        },
        cluster: ClusterInfo { name: "cluster".to_string(), region: "eu".to_string(), zone: "a".to_string() },
    }
}

fn service(service_type: ServiceType, managed: bool) -> Service {
    Service {
        context: ExecutionContext {
            workspace_root_dir: "/ws".to_string(),
            execution_id: "exec".to_string(),
            organization_id: "org".to_string(),
            cluster_id: "cl".to_string(),
            resource_expiration_in_seconds: Some(3600),
            is_dry_run_deploy: false,
        },
        service_type,
        id: "abc".to_string(),
        long_id: uuid::Uuid::nil(),
        name: "web".to_string(),
        sanitized_name: "app-sanitized".to_string(),
        version: "1.2".to_string(),
        action: Action::Create,
        private_port: Some(8080),
        total_cpus: "1".to_string(),
        cpu_burst: "1".to_string(),
        total_ram_in_mib: 256,
        min_instances: 1,
        max_instances: 2,
        publicly_accessible: false,
        selector: Some("appId=abc".to_string()),
        is_managed_service: managed,
        helm: HelmInfo {
            release_name: "release-abc".to_string(),
            chart_dir: "/charts/app".to_string(),
            chart_values_dir: "/charts/values".to_string(),
            chart_external_name_service_dir: "/charts/ext".to_string(),
        },
        terraform: TerraformInfo {
            common_resource_dir_path: "/tf/common".to_string(),
            resource_dir_path: "/tf/db".to_string(),
        },
    }
}

fn details() -> EventDetails {
    EventDetails::new("org".to_string(), "cl".to_string(), "exec".to_string(), EnvironmentStep::Delete)
}

fn err(m: &str) -> CommandError {
    CommandError::new(m.to_string())
}

/// Drives a run: answers each operation with the outcome `answer` gives; returns the operations and the result.
fn drive(mut d: Deployment, mut answer: impl FnMut(&Operation) -> Outcome) -> (Vec<Operation>, Result<(), EngineError>) {
    let mut ops = Vec::new();
    let mut step = d.advance(Outcome::Completed);
    loop {
        match step {
            Step::Finished => break,
            Step::Perform(op) => {
                let outcome = answer(&op);
                ops.push(op);
                step = d.advance(outcome);
            }
        }
    }
    (ops, d.into_result())
}

#[test]
fn release_deploy_runs_all_steps_in_order() {
    let t = target("env-123");
    let s = service(ServiceType::Application, false);
    let (ops, r) = drive(deploy_stateless_service(&t, &s), |op| match op {
        Operation::ListPods { .. } => Outcome::Pods(vec![]),
        Operation::WaitPodReady { .. } => Outcome::Readiness(Some(true)),
        _ => Outcome::Completed,
    });
    assert!(r.is_ok());
    assert_eq!(ops.len(), 5);
    match &ops[0] {
        Operation::RenderTemplates { source_dir, dest_dir } => {
            assert_eq!(source_dir, "/charts/app");
            assert_eq!(dest_dir, "/ws/exec/applications/web");
        }
        _ => panic!("render expected"),
    }
    match &ops[1] {
        Operation::CreateNamespace { namespace, ttl_seconds } => {
            assert_eq!(namespace, "env-123");
            assert_eq!(*ttl_seconds, Some(3600));
        }
        _ => panic!("namespace expected"),
    }
    match &ops[2] {
        Operation::UpgradeRelease { release_name, timeout_seconds, atomic, values_file, selector, .. } => {
            assert_eq!(release_name, "release-abc");
            assert_eq!(*timeout_seconds, 600);
            assert!(*atomic);
            assert!(values_file.is_none());
            assert_eq!(selector.as_deref(), Some("appId=abc"));
        }
        _ => panic!("upgrade expected"),
    }
    assert!(matches!(ops[3], Operation::ListPods { .. }));
    assert!(matches!(ops[4], Operation::WaitPodReady { .. }));
}

#[test]
fn database_release_renders_overlay_and_passes_values_file() {
    let t = target("env-123");
    let s = service(ServiceType::Database(DatabaseType::PostgreSQL), false);
    let (ops, r) = drive(deploy_stateful_service(&t, &s, details()), |op| match op {
        Operation::WaitPodReady { .. } => Outcome::Readiness(Some(true)),
        _ => Outcome::Completed,
    });
    assert!(r.is_ok());
    match &ops[1] {
        Operation::RenderTemplates { source_dir, dest_dir } => {
            assert_eq!(source_dir, "/charts/values");
            assert_eq!(dest_dir, "/ws/exec/databases/web");
        }
        _ => panic!("overlay expected"),
    }
    match &ops[3] {
        Operation::UpgradeRelease { values_file, .. } => {
            assert_eq!(values_file.as_deref(), Some("/ws/exec/databases/web/q-values.yaml"));
        }
        _ => panic!("upgrade expected"),
    }
}

#[test]
fn readiness_never_reached_fails_to_start() {
    let t = target("env-123");
    let s = service(ServiceType::Application, false);
    let (ops, r) = drive(deploy_stateless_service(&t, &s), |op| match op {
        Operation::WaitPodReady { .. } => Outcome::Readiness(Some(false)),
        _ => Outcome::Completed,
    });
    assert_eq!(ops.len(), 5);
    match r {
        Err(EngineError::ServiceFailedToStart { service, service_type, last_error, .. }) => {
            assert_eq!(service, "web (abc)");
            assert_eq!(service_type, "Application");
            assert!(last_error.is_none());
        }
        other => panic!("unexpected {:?}", other),
    }
}

#[test]
fn readiness_error_is_carried_in_start_failure() {
    let t = target("env-123");
    let s = service(ServiceType::Application, false);
    let (_, r) = drive(deploy_stateless_service(&t, &s), |op| match op {
        Operation::WaitPodReady { .. } => Outcome::Failed(err("timeout")),
        _ => Outcome::Completed,
    });
    match r {
        Err(EngineError::ServiceFailedToStart { last_error: Some(e), .. }) => assert_eq!(e.message, "timeout"),
        other => panic!("unexpected {:?}", other),
    }
}

#[test]
fn namespace_already_there_is_not_an_error() {
    let t = target("env-123");
    let s = service(ServiceType::Application, false);
    let (ops, r) = drive(deploy_stateless_service(&t, &s), |op| match op {
        Operation::CreateNamespace { .. } => Outcome::AlreadyExists,
        Operation::WaitPodReady { .. } => Outcome::Readiness(Some(true)),
        _ => Outcome::Completed,
    });
    assert!(r.is_ok());
    assert_eq!(ops.len(), 5);
}

#[test]
fn failed_upgrade_aborts_the_rest() {
    let t = target("env-123");
    let s = service(ServiceType::Application, false);
    let (ops, r) = drive(deploy_stateless_service(&t, &s), |op| match op {
        Operation::UpgradeRelease { .. } => Outcome::Failed(err("helm failed")),
        _ => Outcome::Completed,
    });
    assert_eq!(ops.len(), 3);
    match r {
        Err(EngineError::ChartRelease { cause, details }) => {
            assert_eq!(cause.message, "helm failed");
            assert_eq!(details.stage, EnvironmentStep::Deploy);
        }
        other => panic!("unexpected {:?}", other),
    }
}

#[test]
fn render_failure_names_directories() {
    let t = target("env-123");
    let s = service(ServiceType::Application, false);
    let (ops, r) = drive(deploy_stateless_service(&t, &s), |_| Outcome::Failed(err("no such dir")));
    assert_eq!(ops.len(), 1);
    match r {
        Err(EngineError::CannotCopyFiles { from, to, .. }) => {
            assert_eq!(from, "/charts/app");
            assert_eq!(to, "/ws/exec/applications/web");
        }
        other => panic!("unexpected {:?}", other),
    }
}

#[test]
fn namespace_failure_is_classified() {
    let t = target("env-123");
    let s = service(ServiceType::Application, false);
    let (_, r) = drive(deploy_stateless_service(&t, &s), |op| match op {
        Operation::CreateNamespace { .. } => Outcome::Failed(err("forbidden")),
        _ => Outcome::Completed,
    });
    match r {
        Err(EngineError::CreateNamespace { namespace, .. }) => assert_eq!(namespace, "env-123"),
        other => panic!("unexpected {:?}", other),
    }
}

fn pod(name: &str, phase: PodPhase) -> PodStatus {
    PodStatus { namespace: "env-123".to_string(), name: name.to_string(), phase }
}

#[test]
fn sweep_deletes_only_pending_pods() {
    let t = target("env-123");
    let s = service(ServiceType::Application, false);
    let (ops, r) = drive(deploy_stateless_service(&t, &s), |op| match op {
        Operation::ListPods { .. } => Outcome::Pods(vec![
            pod("a", PodPhase::Pending),
            pod("b", PodPhase::Running),
            pod("c", PodPhase::Pending),
        ]),
        Operation::WaitPodReady { .. } => Outcome::Readiness(Some(true)),
        _ => Outcome::Completed,
    });
    assert!(r.is_ok());
    let deleted: Vec<String> = ops
        .iter()
        .filter_map(|o| match o {
            Operation::DeletePod { name, .. } => Some(name.clone()),
            _ => None,
        })
        .collect();
    assert_eq!(deleted, vec!["a".to_string(), "c".to_string()]);
    assert!(matches!(ops.last(), Some(Operation::WaitPodReady { .. })));
}

#[test]
fn pending_pods_lists_deletions_in_order() {
    let pods = vec![pod("x", PodPhase::Running), pod("y", PodPhase::Pending), pod("z", PodPhase::Succeeded)];
    let ops = service_orchestrator::operation::pending_pods(&pods);
    assert_eq!(ops.len(), 1);
    match &ops[0] {
        Operation::DeletePod { namespace, name } => {
            assert_eq!(namespace, "env-123");
            assert_eq!(name, "y");
        }
        _ => panic!("deletion expected"),
    }
}

#[test]
fn pod_deletion_failure_is_a_cluster_issue() {
    let t = target("env-123");
    let s = service(ServiceType::Application, false);
    let (_, r) = drive(deploy_stateless_service(&t, &s), |op| match op {
        Operation::ListPods { .. } => Outcome::Pods(vec![pod("a", PodPhase::Pending)]),
        Operation::DeletePod { .. } => Outcome::Failed(err("denied")),
        _ => Outcome::Completed,
    });
    assert!(matches!(r, Err(EngineError::ClusterServiceIssue { .. })));
}

#[test]
fn managed_deploy_renders_three_sets_then_applies() {
    let t = target("env-123");
    let mut s = service(ServiceType::Database(DatabaseType::MySQL), true);
    s.context.is_dry_run_deploy = true;
    let (ops, r) = drive(deploy_stateful_service(&t, &s, details()), |_| Outcome::Completed);
    assert!(r.is_ok());
    assert_eq!(ops.len(), 4);
    match &ops[2] {
        Operation::RenderTemplates { source_dir, dest_dir } => {
            assert_eq!(source_dir, "/charts/ext");
            assert_eq!(dest_dir, "/ws/exec/databases/web/external-name-svc");
        }
        _ => panic!("render expected"),
    }
    match &ops[3] {
        Operation::ProvisionApply { workspace_dir, dry_run } => {
            assert_eq!(workspace_dir, "/ws/exec/databases/web");
            assert!(*dry_run);
        }
        _ => panic!("apply expected"),
    }
}

#[test]
fn managed_apply_failure_is_a_provisioning_error() {
    let t = target("env-123");
    let s = service(ServiceType::Database(DatabaseType::MySQL), true);
    let (_, r) = drive(deploy_stateful_service(&t, &s, details()), |op| match op {
        Operation::ProvisionApply { .. } => Outcome::Failed(err("apply")),
        _ => Outcome::Completed,
    });
    assert!(matches!(r, Err(EngineError::ProvisioningPipeline { .. })));
}

#[test]
fn managed_delete_cleans_state_secret_best_effort() {
    let t = target("env-123");
    let s = service(ServiceType::Database(DatabaseType::Redis), true);
    let (ops, r) = drive(delete_stateful_service(&t, &s, details()), |op| match op {
        Operation::DeleteSecret { .. } => Outcome::Failed(err("gone")),
        _ => Outcome::Completed,
    });
    assert!(r.is_ok());
    assert_eq!(ops.len(), 5);
    match &ops[4] {
        Operation::DeleteSecret { namespace, name } => {
            assert_eq!(namespace, "env-123");
            assert_eq!(name, "tfstate-default-abc");
        }
        _ => panic!("secret deletion expected"),
    }
}

#[test]
fn managed_destroy_failure_skips_secret_cleanup() {
    let t = target("env-123");
    let s = service(ServiceType::Database(DatabaseType::Redis), true);
    let (ops, r) = drive(delete_stateful_service(&t, &s, details()), |op| match op {
        Operation::ProvisionDestroy { .. } => Outcome::Failed(err("destroy")),
        _ => Outcome::Completed,
    });
    assert_eq!(ops.len(), 4);
    assert!(matches!(r, Err(EngineError::ProvisioningDestroy { .. })));
}

#[test]
fn unmanaged_delete_uninstalls_release() {
    let t = target("env-123");
    let s = service(ServiceType::Database(DatabaseType::Redis), false);
    let (ops, r) = drive(delete_stateful_service(&t, &s, details()), |_| Outcome::Completed);
    assert!(r.is_ok());
    match &ops[..] {
        [Operation::UninstallRelease { release_name, namespace }] => {
            assert_eq!(release_name, "release-abc");
            assert_eq!(namespace, "env-123");
        }
        _ => panic!("uninstall expected"),
    }
    let (_, r) = drive(delete_stateless_service(&t, &s, details()), |_| Outcome::Failed(err("helm")));
    assert!(matches!(r, Err(EngineError::ChartRelease { .. })));
}

#[test]
fn scale_down_managed_database_does_nothing() {
    let t = target("env-123");
    let s = service(ServiceType::Database(DatabaseType::MongoDB), true);
    let (ops, r) = drive(scale_down_database(&t, &s, 0), |_| Outcome::Completed);
    assert!(ops.is_empty());
    assert!(r.is_ok());
}

#[test]
fn scale_down_database_targets_statefulset() {
    let t = target("env-123");
    let s = service(ServiceType::Database(DatabaseType::MongoDB), false);
    let (ops, r) = drive(scale_down_database(&t, &s, 0), |_| Outcome::Failed(err("scale")));
    match &ops[..] {
        [Operation::ScaleReplicas { kind, selector, replicas, .. }] => {
            assert_eq!(*kind, ScalingKind::Statefulset);
            assert_eq!(selector, "databaseId=abc");
            assert_eq!(*replicas, 0);
        }
        _ => panic!("scale expected"),
    }
    match r {
        Err(EngineError::ScaleReplicas { selector, namespace, .. }) => {
            assert_eq!(selector, "databaseId=abc");
            assert_eq!(namespace, "env-123");
        }
        other => panic!("unexpected {:?}", other),
    }
}

#[test]
fn scale_down_application_uses_selector() {
    let t = target("env-123");
    let s = service(ServiceType::Application, false);
    let (ops, r) = drive(scale_down_application(&t, &s, 0, ScalingKind::Deployment), |_| Outcome::Completed);
    assert!(r.is_ok());
    match &ops[..] {
        [Operation::ScaleReplicas { kind, selector, .. }] => {
            assert_eq!(*kind, ScalingKind::Deployment);
            assert_eq!(selector, "appId=abc");
        }
        _ => panic!("scale expected"),
    }
}

#[test]
fn finished_run_stays_finished() {
    let t = target("env-123");
    let s = service(ServiceType::Application, false);
    let mut d = deploy_stateless_service(&t, &s);
    assert!(matches!(d.advance(Outcome::Completed), Step::Perform(_)));
    assert!(matches!(d.advance(Outcome::Failed(err("x"))), Step::Finished));
    assert!(matches!(d.advance(Outcome::Completed), Step::Finished));
    assert!(matches!(d.into_result(), Err(EngineError::CannotCopyFiles { .. })));
}

#[test]
fn error_recovery_is_a_no_op() {
    let t = target("env-123");
    let s = service(ServiceType::Application, false);
    assert!(deploy_stateless_service_error(&t, &s).is_ok());
}

#[test]
fn template_context_holds_service_values() {
    let t = target("env-123");
    let mut s = service(ServiceType::Application, false);
    let c = service_orchestrator::model::default_tera_context(&s, &t);
    assert!(c.contains_key("private_port"));
    assert!(c.contains_key("namespace"));
    assert_eq!(c.get("namespace").and_then(|v| v.as_str()), Some("env-123"));
    assert_eq!(c.get("private_port").and_then(|v| v.as_u64()), Some(8080));
    s.private_port = None;
    let c = service_orchestrator::model::default_tera_context(&s, &t);
    assert!(!c.contains_key("private_port"));
    assert_eq!(c.get("is_private_port").and_then(|v| v.as_bool()), Some(false));
    assert_eq!(c.get("id").and_then(|v| v.as_str()), Some("abc"));
    assert_eq!(c.get("version").and_then(|v| v.as_str()), Some("1.2"));
    assert_eq!(c.get("total_ram_in_mib").and_then(|v| v.as_u64()), Some(256));
    assert!(c.get("long_id").map(|v| v.is_string()).unwrap_or(false));
}

#[test]
fn failed_secret_cleanup_is_kept_for_logging() {
    let t = target("env-123");
    let s = service(ServiceType::Database(DatabaseType::Redis), true);
    let mut d = delete_stateful_service(&t, &s, details());
    let mut step = d.advance(Outcome::Completed);
    while let Step::Perform(op) = step {
        let outcome = match op {
            Operation::DeleteSecret { .. } => Outcome::Failed(err("forbidden")),
            _ => Outcome::Completed,
        };
        step = d.advance(outcome);
    }
    assert_eq!(d.cleanup_failure.as_ref().map(|e| e.message.clone()), Some("forbidden".to_string()));
    assert!(d.into_result().is_ok());
}

#[test]
fn readiness_gate_follows_any_sweep() {
    let t = target("env-123");
    let s = service(ServiceType::Application, false);
    let (ops, r) = drive(deploy_stateless_service(&t, &s), |op| match op {
        Operation::ListPods { .. } => Outcome::Pods(vec![pod("p1", PodPhase::Pending), pod("p2", PodPhase::Pending)]),
        Operation::WaitPodReady { .. } => Outcome::Readiness(None),
        _ => Outcome::Completed,
    });
    assert_eq!(ops.len(), 7);
    assert!(matches!(r, Err(EngineError::ServiceFailedToStart { last_error: None, .. })));
}
