use std::cell::RefCell;

use service_orchestrator::diagnostics::{
    debug_logs, equals_ignoring_case, exit_code_text, get_stateless_resource_information_for_user, ClusterEvent,
    ContainerState, ContainerStatus, PodCondition, PodDiagnostics, TerminatedState, WaitingState,
};
use service_orchestrator::dispatch::{exec_action, exec_check_action, handler_for, Create, Delete, Handler, Pause};
use service_orchestrator::errors::{CommandError, EngineError, EnvironmentStep, EventDetails};
use service_orchestrator::model::{
    Action, CheckAction, ClusterInfo, DatabaseType, DeploymentTarget, Environment, ExecutionContext, HelmInfo,
    ProgressScope, Service, ServiceType, TerraformInfo,
};
use service_orchestrator::progress::{
    check_kubernetes_service_error, debug_logs_text, waiting_message, ListenerChannel, Notification, ProgressLevel,
    Reporter, ReporterAction, Wake,
};
use service_orchestrator::versions::{check_service_version, VersionsNumber};

fn target(namespace: &str) -> DeploymentTarget {
    DeploymentTarget {
        environment: Environment {
            namespace: namespace.to_string(),
            id: "env".to_string(),
            long_id: uuid::Uuid::nil(),
            owner_id: "owner".to_string(),
            project_id: "project".to_string(),
            project_long_id: uuid::Uuid::nil(),
            organization_id: "org".to_string(),
            organization_long_id: uuid::Uuid::nil(),
        },
        cluster: ClusterInfo { name: "cluster".to_string(), region: "eu".to_string(), zone: "a".to_string() },
    }
}

fn service(service_type: ServiceType, version: &str) -> Service {
    Service {
        context: ExecutionContext {
            workspace_root_dir: "/ws".to_string(),
            execution_id: "exec".to_string(),
            organization_id: "org".to_string(),
            cluster_id: "cl".to_string(),
            resource_expiration_in_seconds: None,
            is_dry_run_deploy: false,
        },
        service_type,
        id: "abc".to_string(),
        long_id: uuid::Uuid::nil(),
        name: "web".to_string(),
        sanitized_name: "app-sanitized".to_string(),
        version: version.to_string(),
        action: Action::Create,
        private_port: Some(8080),
        total_cpus: "1".to_string(),
        cpu_burst: "1".to_string(),
        total_ram_in_mib: 256,
        min_instances: 1,
        max_instances: 2,
        publicly_accessible: false,
        selector: None,
        is_managed_service: false,
        helm: HelmInfo {
            release_name: "r".to_string(),
            chart_dir: "c".to_string(),
            chart_values_dir: "v".to_string(),
            chart_external_name_service_dir: "e".to_string(),
        },
        terraform: TerraformInfo { common_resource_dir_path: "t".to_string(), resource_dir_path: "u".to_string() },
    }
}

fn details() -> EventDetails {
    EventDetails::new("org".to_string(), "cl".to_string(), "exec".to_string(), EnvironmentStep::Deploy)
}

#[test]
fn fqdn_of_private_application_is_cluster_local() {
    let s = service(ServiceType::Application, "1");
    assert_eq!(s.fqdn(&target("env-123"), "app.example.com", false), "app-sanitized.env-123.svc.cluster.local");
}

#[test]
fn fqdn_of_private_managed_resource_uses_id() {
    let s = service(ServiceType::Database(DatabaseType::PostgreSQL), "1");
    assert_eq!(s.fqdn(&target("env-123"), "db.example.com", true), "abc-dns.env-123.svc.cluster.local");
}

#[test]
fn fqdn_of_public_service_is_unchanged() {
    let mut s = service(ServiceType::Database(DatabaseType::PostgreSQL), "1");
    s.publicly_accessible = true;
    assert_eq!(s.fqdn(&target("env-123"), "db.example.com", true), "db.example.com");
    assert_eq!(s.fqdn(&target("env-123"), "db.example.com", false), "db.example.com");
}

#[test]
fn names_and_paths() {
    let s = service(ServiceType::Router, "2.1");
    assert_eq!(s.name_with_id(), "web (abc)");
    assert_eq!(s.name_with_id_and_version(), "web (abc) version: 2.1");
    assert_eq!(s.workspace_directory(), "/ws/exec/routers/web");
    assert_eq!(s.get_tfstate_name(), "tfstate-default-abc");
    assert_eq!(s.get_tfstate_suffix(), "abc");
    assert!(matches!(s.progress_scope(), ProgressScope::Router { id } if id == "abc"));
    let d = s.get_event_details(EnvironmentStep::Pause);
    assert_eq!(d.execution_id, "exec");
    assert_eq!(d.clone_changing_stage(EnvironmentStep::Delete).stage, EnvironmentStep::Delete);
}

#[test]
fn service_type_names() {
    assert_eq!(ServiceType::Application.name(), "Application");
    assert_eq!(ServiceType::Router.name(), "Router");
    assert_eq!(ServiceType::Database(DatabaseType::MongoDB).name(), "MongoDB database");
    assert_eq!(ServiceType::Database(DatabaseType::PostgreSQL).to_string(), "PostgreSQL database");
    assert_eq!(DatabaseType::Redis.to_string(), "Redis");
    assert_eq!(DatabaseType::MySQL.to_string(), "MySQL");
}

struct Recorder {
    calls: RefCell<Vec<&'static str>>,
}

impl Recorder {
    fn record(&self, what: &'static str) -> Result<(), EngineError> {
        self.calls.borrow_mut().push(what);
        Ok(())
    }
}

impl Create for Recorder {
    fn create_outcome(&self, _t: DeploymentTarget) -> Result<(), EngineError> {
        Ok(())
    }
    fn create_check_outcome(&self) -> Result<(), EngineError> {
        Ok(())
    }
    fn on_create(&self, _t: &DeploymentTarget) -> Result<(), EngineError> {
        self.record("create")
    }
    fn on_create_check(&self) -> Result<(), EngineError> {
        self.record("create_check")
    }
    fn on_create_error(&self, _t: &DeploymentTarget) -> Result<(), EngineError> {
        self.record("create_error")
    }
}

impl Pause for Recorder {
    fn pause_outcome(&self, _t: DeploymentTarget) -> Result<(), EngineError> {
        Ok(())
    }
    fn pause_check_outcome(&self) -> Result<(), EngineError> {
        Ok(())
    }
    fn on_pause(&self, _t: &DeploymentTarget) -> Result<(), EngineError> {
        self.record("pause")
    }
    fn on_pause_check(&self) -> Result<(), EngineError> {
        self.record("pause_check")
    }
    fn on_pause_error(&self, _t: &DeploymentTarget) -> Result<(), EngineError> {
        self.record("pause_error")
    }
}

impl Delete for Recorder {
    fn delete_outcome(&self, _t: DeploymentTarget) -> Result<(), EngineError> {
        Ok(())
    }
    fn delete_check_outcome(&self) -> Result<(), EngineError> {
        Ok(())
    }
    fn on_delete(&self, _t: &DeploymentTarget) -> Result<(), EngineError> {
        self.record("delete")
    }
    fn on_delete_check(&self) -> Result<(), EngineError> {
        self.record("delete_check")
    }
    fn on_delete_error(&self, _t: &DeploymentTarget) -> Result<(), EngineError> {
        self.record("delete_error")
    }
}

#[test]
fn dispatch_runs_exactly_one_handler() {
    let t = target("ns");
    let cases = [
        (Action::Create, vec!["create"], vec!["create_check"]),
        (Action::Pause, vec!["pause"], vec!["pause_check"]),
        (Action::Delete, vec!["delete"], vec!["delete_check"]),
        (Action::Nothing, vec![], vec![]),
    ];
    for (action, expected, expected_check) in cases {
        let r = Recorder { calls: RefCell::new(vec![]) };
        assert!(exec_action(&r, action, &t).is_ok());
        assert_eq!(*r.calls.borrow(), expected);
        let r = Recorder { calls: RefCell::new(vec![]) };
        assert!(exec_check_action(&r, action).is_ok());
        assert_eq!(*r.calls.borrow(), expected_check);
    }
    assert_eq!(handler_for(Action::Nothing), Handler::NoOp);
    assert_eq!(handler_for(Action::Pause), Handler::OnPause);
}

#[test]
fn same_version_has_no_advisory() {
    let s = service(ServiceType::Database(DatabaseType::PostgreSQL), "1.2");
    let (events, r) = check_service_version(Ok("1.2".to_string()), &s, details());
    let r = r.unwrap();
    assert!(events.is_empty());
    assert!(r.message().is_none());
    assert_eq!(r.requested_version().parts, r.matched_version().parts);
}

#[test]
fn different_version_has_advisory() {
    let s = service(ServiceType::Database(DatabaseType::PostgreSQL), "1.2");
    let (events, r) = check_service_version(Ok("1.3".to_string()), &s, details());
    let r = r.unwrap();
    assert_eq!(events.len(), 1);
    assert_eq!(events[0].channel, ListenerChannel::Deployment);
    assert_eq!(events[0].notification, Notification::InProgress);
    assert_eq!(
        events[0].info.message.as_deref(),
        Some("PostgreSQL database version `1.2` has been requested by the user; but matching version is `1.3`")
    );
    assert_eq!(
        r.message().unwrap(),
        "PostgreSQL database version `1.2` has been requested by the user; but matching version is `1.3`"
    );
    assert_eq!(r.matched_version().parts, vec!["1".to_string(), "3".to_string()]);
    assert_eq!(r.requested_version().parts, vec!["1".to_string(), "2".to_string()]);
}

#[test]
fn unresolved_version_is_unsupported() {
    let s = service(ServiceType::Database(DatabaseType::MySQL), "9.9");
    let (events, r) = check_service_version(Err(CommandError::new("none".to_string())), &s, details());
    assert_eq!(events.len(), 1);
    assert_eq!(events[0].info.level, ProgressLevel::Error);
    assert_eq!(events[0].notification, Notification::Error);
    assert_eq!(events[0].info.message.as_deref(), Some("MySQL database version 9.9 is not supported!"));
    match r {
        Err(EngineError::UnsupportedVersion { service_type, version, .. }) => {
            assert_eq!(service_type, "MySQL database");
            assert_eq!(version, "9.9");
        }
        _ => panic!("unsupported version expected"),
    }
    assert_eq!(
        service_orchestrator::versions::unsupported_version_message(&s),
        "MySQL database version 9.9 is not supported!"
    );
}

#[test]
fn malformed_versions_are_parse_errors() {
    let s = service(ServiceType::Application, "1..2");
    assert!(matches!(
        check_service_version(Ok("1.2".to_string()), &s, details()).1,
        Err(EngineError::VersionParsing { raw_version, .. }) if raw_version == "1..2"
    ));
    let s = service(ServiceType::Application, "1.2");
    assert!(matches!(
        check_service_version(Ok("".to_string()), &s, details()).1,
        Err(EngineError::VersionParsing { raw_version, .. }) if raw_version.is_empty()
    ));
    assert!(VersionsNumber::parse("1.").is_err());
    assert_eq!(VersionsNumber::parse("13.4.1-rc").unwrap().parts, vec!["13", "4", "1-rc"]);
}

#[test]
fn waiting_messages_follow_action() {
    let s = service(ServiceType::Application, "3");
    assert_eq!(
        waiting_message(&s, Action::Create).unwrap(),
        "Application 'web (abc) version: 3' deployment is in progress..."
    );
    assert_eq!(waiting_message(&s, Action::Pause).unwrap(), "Application 'web (abc) version: 3' pause is in progress...");
    assert_eq!(
        waiting_message(&s, Action::Delete).unwrap(),
        "Application 'web (abc) version: 3' deletion is in progress..."
    );
    assert!(waiting_message(&s, Action::Nothing).is_none());
}

#[test]
fn reporter_emits_until_stopped() {
    let (mut r, first) = Reporter::start();
    assert_eq!(first, ReporterAction::Emit);
    assert_eq!(r.on_wake(Wake::Timeout), ReporterAction::Emit);
    assert_eq!(r.on_wake(Wake::Timeout), ReporterAction::Emit);
    assert_eq!(r.on_wake(Wake::Stopped), ReporterAction::Halt);
    assert_eq!(r.on_wake(Wake::Timeout), ReporterAction::Halt);
    let (mut r, _) = Reporter::start();
    assert_eq!(r.on_wake(Wake::Disconnected), ReporterAction::Halt);
    assert!(r.stopped);
}

#[test]
fn successful_outcome_reports_progress_twice() {
    let s = service(ServiceType::Application, "1");
    let (events, r) = check_kubernetes_service_error(Ok(()), &s, details(), "Deployment", CheckAction::Deploy, &vec![]);
    assert!(r.is_ok());
    assert_eq!(events.len(), 2);
    assert_eq!(events[0].info.message.as_deref(), Some("Deployment application web"));
    assert_eq!(events[1].info.message.as_deref(), Some("Deployment succeeded for application web"));
    assert_eq!(events[1].channel, ListenerChannel::Deployment);
}

#[test]
fn failed_outcome_reports_error_and_diagnostics() {
    let s = service(ServiceType::Database(DatabaseType::Redis), "1");
    let failure = EngineError::ChartRelease { details: details(), cause: CommandError::new("boom".to_string()) };
    let logs = vec!["line 1".to_string(), "line 2".to_string()];
    let (events, r) = check_kubernetes_service_error(Err(failure), &s, details(), "Pause", CheckAction::Pause, &logs);
    assert_eq!(events.len(), 3);
    assert_eq!(events[1].notification, Notification::Error);
    assert_eq!(events[1].info.level, ProgressLevel::Error);
    assert_eq!(events[1].info.message.as_deref(), Some("Pause error redis database web : error => boom"));
    assert_eq!(events[2].info.level, ProgressLevel::Debug);
    assert_eq!(events[2].info.message.as_deref(), Some("line 1\nline 2"));
    assert_eq!(events[2].channel, ListenerChannel::Pause);
    match r {
        Err(EngineError::ClusterServiceIssue { cause, .. }) => assert_eq!(cause.message, "boom"),
        _ => panic!("cluster issue expected"),
    }
}

#[test]
fn no_debug_logs_placeholder() {
    assert_eq!(debug_logs_text(&vec![]), "<no debug logs>");
    assert_eq!(debug_logs_text(&vec!["only".to_string()]), "only");
}

#[test]
fn diagnostics_collect_relevant_lines() {
    let pods = vec![PodDiagnostics {
        conditions: vec![
            PodCondition {
                condition_type: "Ready".to_string(),
                status: "False".to_string(),
                reason: Some("Crash".to_string()),
                message: Some("not ready".to_string()),
            },
            PodCondition { condition_type: "Scheduled".to_string(), status: "True".to_string(), reason: None, message: None },
        ],
        container_statuses: vec![ContainerStatus {
            last_state: Some(ContainerState {
                terminated: Some(TerminatedState { exit_code: -137, message: Some("oom".to_string()) }),
                waiting: Some(WaitingState { message: Some("backoff".to_string()) }),
            }),
        }],
    }];
    let events = vec![
        ClusterEvent {
            event_type: "Warning".to_string(),
            reason: "BackOff".to_string(),
            message: Some("restarting".to_string()),
            last_timestamp: Some("t1".to_string()),
        },
        ClusterEvent { event_type: "NORMAL".to_string(), reason: "Pulled".to_string(), message: Some("ok".to_string()), last_timestamp: None },
    ];
    let lines = get_stateless_resource_information_for_user(vec!["log".to_string()], &pods, &events);
    assert_eq!(
        lines,
        vec![
            "log",
            "Condition not met to start the container: Ready -> Crash: not ready",
            "terminated state message: oom",
            "terminated state exit code: -137",
            "waiting state message: backoff",
            "t1 Warning BackOff: restarting",
        ]
    );
    let (none, failure) = debug_logs(
        Ok(vec!["log".to_string()]),
        Err(CommandError::new("x".to_string())),
        Ok(vec![]),
        details(),
        "appId=abc",
        "env-123",
    );
    assert!(none.is_empty());
    assert!(matches!(failure, Some(EngineError::PodsUnavailable { cause, .. }) if cause.message == "x"));
    let (none, failure) =
        debug_logs(Err(CommandError::new("logs".to_string())), Ok(vec![]), Ok(vec![]), details(), "appId=abc", "env-123");
    assert!(none.is_empty());
    assert!(matches!(failure, Some(EngineError::LogsUnavailable { selector, namespace, .. })
        if selector == "appId=abc" && namespace == "env-123"));
    let (none, failure) =
        debug_logs(Ok(vec![]), Ok(vec![]), Err(CommandError::new("ev".to_string())), details(), "s", "env-123");
    assert!(none.is_empty());
    assert!(matches!(failure, Some(EngineError::EventsUnavailable { namespace, .. }) if namespace == "env-123"));
    let (lines, failure) = debug_logs(Ok(vec!["a".to_string()]), Ok(vec![]), Ok(vec![]), details(), "s", "n");
    assert_eq!(lines, vec!["a".to_string()]);
    assert!(failure.is_none());
}

#[test]
fn exit_codes_and_case_folding() {
    assert_eq!(exit_code_text(0), "0");
    assert_eq!(exit_code_text(1234), "1234");
    assert_eq!(exit_code_text(i32::MIN), "-2147483648");
    assert!(equals_ignoring_case("FaLsE", "false"));
    assert!(!equals_ignoring_case("falsey", "false"));
}

#[test]
fn progress_scope_follows_service_kind() {
    let s = service(ServiceType::Database(DatabaseType::Redis), "1");
    let (events, _) = check_kubernetes_service_error(Ok(()), &s, details(), "Deployment", CheckAction::Deploy, &vec![]);
    assert!(matches!(&events[0].info.scope, ProgressScope::Database { id } if id == "abc"));
}

#[test]
fn start_report_counts_cluster_objects() {
    let s = service(ServiceType::Application, "1");
    assert_eq!(
        service_orchestrator::progress::deployment_start_message(&s, 3, 1, 0),
        "Application `abc` deployment is going to start: You have 3 pod(s) running, 1 service(s) running, 0 network volume(s)"
    );
}

#[test]
fn deploy_log_names_strategy() {
    let mut s = service(ServiceType::Database(DatabaseType::MySQL), "1");
    assert_eq!(
        service_orchestrator::provisioner::deploy_log_message(&s),
        "Deploying containerized MySQL database `web (abc)` on Kubernetes cluster"
    );
    s.is_managed_service = true;
    assert_eq!(service_orchestrator::provisioner::deploy_log_message(&s), "Deploying managed MySQL database `web (abc)`");
}
