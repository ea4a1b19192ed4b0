use vstd::prelude::*;
use vstd::string::*;

use crate::errors::{EnvironmentStep, EventDetails};
use crate::outside::{context_flags, context_keys, context_numbers, context_texts, insert_flag, insert_number, insert_text, insert_uuid, new_context};

verus! {

/// The desired state declared for a service.
#[derive(Clone, Copy, PartialEq, Eq, Structural, Debug, Hash)]
pub enum Action {
    Create,
    Pause,
    Delete,
    Nothing,
}

/// Engine flavours of self-hosted or managed databases.
#[derive(Clone, Copy, PartialEq, Eq, Structural, Debug)]
pub enum DatabaseType {
    PostgreSQL,
    MongoDB,
    MySQL,
    Redis,
}

pub open spec fn database_type_name(t: DatabaseType) -> Seq<char> {
    match t {
        DatabaseType::PostgreSQL => "PostgreSQL"@,
        DatabaseType::MongoDB => "MongoDB"@,
        DatabaseType::MySQL => "MySQL"@,
        DatabaseType::Redis => "Redis"@,
    }
}

impl DatabaseType {
    /// Display name of the database engine.
    pub fn to_string(&self) -> (r: String)
        ensures
            r@ == database_type_name(*self),
    {
        match self {
            DatabaseType::PostgreSQL => String::from_str("PostgreSQL"),
            DatabaseType::MongoDB => String::from_str("MongoDB"),
            DatabaseType::MySQL => String::from_str("MySQL"),
            DatabaseType::Redis => String::from_str("Redis"),
        }
    }
}

/// Kind of deployable unit.
#[derive(Clone, Copy, PartialEq, Eq, Structural, Debug)]
pub enum ServiceType {
    Application,
    Database(DatabaseType),
    Router,
}

pub open spec fn service_type_name(t: ServiceType) -> Seq<char> {
    match t {
        ServiceType::Application => "Application"@,
        ServiceType::Database(db) => database_type_name(db) + " database"@,
        ServiceType::Router => "Router"@,
    }
}

impl ServiceType {
    /// Human readable name of the kind ("Application", "Redis database", ...).
    pub fn name(&self) -> (r: String)
        ensures
            r@ == service_type_name(*self),
    {
        match self {
            ServiceType::Application => String::from_str("Application"),
            ServiceType::Database(db) => {
                let mut s = db.to_string();
                s.append(" database");
                s
            },
            ServiceType::Router => String::from_str("Router"),
        }
    }

    pub fn to_string(&self) -> (r: String)
        ensures
            r@ == service_type_name(*self),
    {
        self.name()
    }
}

/// Which of the checked operations a service outcome belongs to.
#[derive(Clone, Copy, PartialEq, Eq, Structural, Debug)]
pub enum CheckAction {
    Deploy,
    Pause,
    Delete,
}

/// Replication mode of a database.
#[derive(Clone, Copy, PartialEq, Eq, Structural, Debug)]
pub enum DatabaseMode {
    Managed,
    Container,
}

/// Static per-database configuration used when rendering templates.
#[derive(Debug)]
pub struct DatabaseOptions {
    pub login: String,
    pub password: String,
    pub host: String,
    pub port: u16,
    pub mode: DatabaseMode,
    pub disk_size_in_gib: u32,
    pub database_disk_type: String,
    pub encrypt_disk: bool,
    pub activate_high_availability: bool,
    pub activate_backups: bool,
    pub publicly_accessible: bool,
}

/// Per-invocation execution context.
#[derive(Debug)]
pub struct ExecutionContext {
    pub workspace_root_dir: String,
    pub execution_id: String,
    pub organization_id: String,
    pub cluster_id: String,
    /// Time to live of the created resources, attached to the namespace as a label.
    pub resource_expiration_in_seconds: Option<u32>,
    /// A dry run renders and plans but does not apply.
    pub is_dry_run_deploy: bool,
}

/// The environment a service is deployed into.
#[derive(Debug)]
pub struct Environment {
    pub namespace: String,
    pub id: String,
    pub long_id: uuid::Uuid,
    pub owner_id: String,
    pub project_id: String,
    pub project_long_id: uuid::Uuid,
    pub organization_id: String,
    pub organization_long_id: uuid::Uuid,
}

/// The cluster a deployment runs against.
#[derive(Debug)]
pub struct ClusterInfo {
    pub name: String,
    pub region: String,
    pub zone: String,
}

/// Read-only bundle passed to every operation of one orchestration call.
#[derive(Debug)]
pub struct DeploymentTarget {
    pub environment: Environment,
    pub cluster: ClusterInfo,
}

/// Chart-release metadata of a service.
#[derive(Debug)]
pub struct HelmInfo {
    pub release_name: String,
    pub chart_dir: String,
    pub chart_values_dir: String,
    pub chart_external_name_service_dir: String,
}

/// Provisioning-module metadata of a service.
#[derive(Debug)]
pub struct TerraformInfo {
    pub common_resource_dir_path: String,
    pub resource_dir_path: String,
}

/// Routing key of progress events.
#[derive(Debug)]
pub enum ProgressScope {
    Application { id: String },
    Database { id: String },
    Router { id: String },
}

impl ProgressScope {
    pub open spec fn spec_id(&self) -> String {
        match self {
            ProgressScope::Application { id } => *id,
            ProgressScope::Database { id } => *id,
            ProgressScope::Router { id } => *id,
        }
    }
}

/// A deployable unit with its identity, sizing, exposure and metadata.
#[derive(Debug)]
pub struct Service {
    pub context: ExecutionContext,
    pub service_type: ServiceType,
    pub id: String,
    pub long_id: uuid::Uuid,
    pub name: String,
    pub sanitized_name: String,
    pub version: String,
    pub action: Action,
    pub private_port: Option<u16>,
    pub total_cpus: String,
    pub cpu_burst: String,
    pub total_ram_in_mib: u32,
    pub min_instances: u32,
    pub max_instances: u32,
    pub publicly_accessible: bool,
    /// Label query identifying the cluster objects of this service.
    pub selector: Option<String>,
    /// Whether the service is a cloud resource run outside the cluster.
    pub is_managed_service: bool,
    pub helm: HelmInfo,
    pub terraform: TerraformInfo,
}

pub open spec fn cluster_local_suffix() -> Seq<char> {
    ".svc.cluster.local"@
}

/// The name under which a service is reached.
pub open spec fn spec_fqdn(
    publicly_accessible: bool,
    id: Seq<char>,
    sanitized_name: Seq<char>,
    namespace: Seq<char>,
    fqdn: Seq<char>,
    is_managed: bool,
) -> Seq<char> {
    if publicly_accessible {
        fqdn
    } else if is_managed {
        id + "-dns."@ + namespace + cluster_local_suffix()
    } else {
        sanitized_name + "."@ + namespace + cluster_local_suffix()
    }
}

pub open spec fn workspace_category(t: ServiceType) -> Seq<char> {
    match t {
        ServiceType::Application => "applications"@,
        ServiceType::Database(_) => "databases"@,
        ServiceType::Router => "routers"@,
    }
}

/// Keys of the default template context.
pub open spec fn default_context_keys(has_private_port: bool) -> Set<Seq<char>> {
    let base = Set::<Seq<char>>::empty().insert("id"@).insert("long_id"@).insert("owner_id"@).insert(
        "project_id"@,
    ).insert("project_long_id"@).insert("organization_id"@).insert("organization_long_id"@).insert(
        "environment_id"@,
    ).insert("environment_long_id"@).insert("region"@).insert("zone"@).insert("name"@).insert(
        "sanitized_name"@,
    ).insert("namespace"@).insert("cluster_name"@).insert("total_cpus"@).insert(
        "total_ram_in_mib"@,
    ).insert("min_instances"@).insert("max_instances"@).insert("is_private_port"@);
    let with_port = if has_private_port {
        base.insert("private_port"@)
    } else {
        base
    };
    with_port.insert("version"@)
}

impl Service {
    pub open spec fn spec_name_with_id(&self) -> Seq<char> {
        self.name@ + " ("@ + self.id@ + ")"@
    }

    pub open spec fn spec_name_with_id_and_version(&self) -> Seq<char> {
        self.spec_name_with_id() + " version: "@ + self.version@
    }

    pub open spec fn spec_workspace_directory(&self) -> Seq<char> {
        self.context.workspace_root_dir@ + "/"@ + self.context.execution_id@ + "/"@ + workspace_category(
            self.service_type,
        ) + "/"@ + self.name@
    }

    /// "name (id)".
    pub fn name_with_id(&self) -> (r: String)
        ensures
            r@ == self.spec_name_with_id(),
    {
        let mut r = self.name.clone();
        r.append(" (");
        r.append(self.id.as_str());
        r.append(")");
        r
    }

    /// "name (id) version: v".
    pub fn name_with_id_and_version(&self) -> (r: String)
        ensures
            r@ == self.spec_name_with_id_and_version(),
    {
        let mut r = self.name_with_id();
        r.append(" version: ");
        r.append(self.version.as_str());
        r
    }

    /// Deterministic workspace path: root, execution id, kind directory, service name.
    pub fn workspace_directory(&self) -> (r: String)
        ensures
            r@ == self.spec_workspace_directory(),
    {
        let mut r = self.context.workspace_root_dir.clone();
        r.append("/");
        r.append(self.context.execution_id.as_str());
        r.append("/");
        match self.service_type {
            ServiceType::Application => r.append("applications"),
            ServiceType::Database(_) => r.append("databases"),
            ServiceType::Router => r.append("routers"),
        }
        r.append("/");
        r.append(self.name.as_str());
        r
    }

    /// Public fqdn when publicly accessible, else the cluster-local name
    /// ("<id>-dns.<ns>.svc.cluster.local" for a managed backing resource,
    /// "<sanitized_name>.<ns>.svc.cluster.local" otherwise).
    pub fn fqdn(&self, target: &DeploymentTarget, fqdn: &str, is_managed: bool) -> (r: String)
        ensures
            r@ == spec_fqdn(
                self.publicly_accessible,
                self.id@,
                self.sanitized_name@,
                target.environment.namespace@,
                fqdn@,
                is_managed,
            ),
    {
        if self.publicly_accessible {
            String::from_str(fqdn)
        } else {
            let mut r = if is_managed {
                let mut r = self.id.clone();
                r.append("-dns.");
                r
            } else {
                let mut r = self.sanitized_name.clone();
                r.append(".");
                r
            };
            r.append(target.environment.namespace.as_str());
            r.append(".svc.cluster.local");
            r
        }
    }

    /// Progress routing key; its id is always the service id.
    pub fn progress_scope(&self) -> (r: ProgressScope)
        ensures
            r.spec_id() == self.id,
            r is Application <==> self.service_type is Application,
            r is Database <==> self.service_type is Database,
            r is Router <==> self.service_type is Router,
    {
        let id = self.id.clone();
        match self.service_type {
            ServiceType::Application => ProgressScope::Application { id },
            ServiceType::Database(_) => ProgressScope::Database { id },
            ServiceType::Router => ProgressScope::Router { id },
        }
    }

    /// Event envelope of this service's execution at the given step.
    pub fn get_event_details(&self, stage: EnvironmentStep) -> (r: EventDetails)
        ensures
            r.organization_id == self.context.organization_id,
            r.cluster_id == self.context.cluster_id,
            r.execution_id == self.context.execution_id,
            r.stage == stage,
    {
        EventDetails::new(
            self.context.organization_id.clone(),
            self.context.cluster_id.clone(),
            self.context.execution_id.clone(),
            stage,
        )
    }

    /// Suffix of the secret that backs the provisioner's remote state.
    pub fn get_tfstate_suffix(&self) -> (r: String)
        ensures
            r == self.id,
    {
        self.id.clone()
    }

    /// Name of the remote-state secret: "tfstate-default-<id>".
    pub fn get_tfstate_name(&self) -> (r: String)
        ensures
            r@ == "tfstate-default-"@ + self.id@,
    {
        let mut r = String::from_str("tfstate-default-");
        r.append(self.id.as_str());
        r
    }
}

/// The template context every service starts from.
pub fn default_tera_context(service: &Service, target: &DeploymentTarget) -> (r: tera::Context)
    ensures
        context_keys(r) == default_context_keys(service.private_port is Some),
        context_texts(r)["id"@] == service.id@,
        context_texts(r)["owner_id"@] == target.environment.owner_id@,
        context_texts(r)["project_id"@] == target.environment.project_id@,
        context_texts(r)["organization_id"@] == target.environment.organization_id@,
        context_texts(r)["environment_id"@] == target.environment.id@,
        context_texts(r)["region"@] == target.cluster.region@,
        context_texts(r)["zone"@] == target.cluster.zone@,
        context_texts(r)["name"@] == service.name@,
        context_texts(r)["sanitized_name"@] == service.sanitized_name@,
        context_texts(r)["namespace"@] == target.environment.namespace@,
        context_texts(r)["cluster_name"@] == target.cluster.name@,
        context_texts(r)["total_cpus"@] == service.total_cpus@,
        context_texts(r)["version"@] == service.version@,
        context_texts(r).contains_key("long_id"@),
        context_texts(r).contains_key("project_long_id"@),
        context_texts(r).contains_key("organization_long_id"@),
        context_texts(r).contains_key("environment_long_id"@),
        context_numbers(r)["total_ram_in_mib"@] == service.total_ram_in_mib as int,
        context_numbers(r)["min_instances"@] == service.min_instances as int,
        context_numbers(r)["max_instances"@] == service.max_instances as int,
        context_flags(r)["is_private_port"@] == service.private_port is Some,
        service.private_port matches Some(p) ==> context_numbers(r).contains_key("private_port"@)
            && context_numbers(r)["private_port"@] == p as int,
        service.private_port is None ==> !context_numbers(r).contains_key("private_port"@),
{
    proof {
        reveal_strlit("id");
        reveal_strlit("long_id");
        reveal_strlit("owner_id");
        reveal_strlit("project_id");
        reveal_strlit("project_long_id");
        reveal_strlit("organization_id");
        reveal_strlit("organization_long_id");
        reveal_strlit("environment_id");
        reveal_strlit("environment_long_id");
        reveal_strlit("region");
        reveal_strlit("zone");
        reveal_strlit("name");
        reveal_strlit("sanitized_name");
        reveal_strlit("namespace");
        reveal_strlit("cluster_name");
        reveal_strlit("total_cpus");
        reveal_strlit("total_ram_in_mib");
        reveal_strlit("min_instances");
        reveal_strlit("max_instances");
        reveal_strlit("is_private_port");
        reveal_strlit("private_port");
        reveal_strlit("version");
        assert("id"@.len() == 2);
        assert("long_id"@.len() == 7);
        assert("owner_id"@.len() == 8);
        assert("project_id"@.len() == 10);
        assert("project_long_id"@.len() == 15);
        assert("organization_id"@.len() == 15);
        assert("organization_long_id"@.len() == 20);
        assert("environment_id"@.len() == 14);
        assert("environment_long_id"@.len() == 19);
        assert("region"@.len() == 6);
        assert("zone"@.len() == 4);
        assert("name"@.len() == 4);
        assert("sanitized_name"@.len() == 14);
        assert("namespace"@.len() == 9);
        assert("cluster_name"@.len() == 12);
        assert("total_cpus"@.len() == 10);
        assert("total_ram_in_mib"@.len() == 16);
        assert("min_instances"@.len() == 13);
        assert("max_instances"@.len() == 13);
        assert("is_private_port"@.len() == 15);
        assert("private_port"@.len() == 12);
        assert("version"@.len() == 7);
        assert("long_id"@[0] != "version"@[0]);
        assert("project_id"@[0] != "total_cpus"@[0]);
        assert("project_long_id"@[0] != "organization_id"@[0]);
        assert("project_long_id"@[0] != "is_private_port"@[0]);
        assert("organization_id"@[0] != "is_private_port"@[0]);
        assert("environment_id"@[0] != "sanitized_name"@[0]);
        assert("zone"@[0] != "name"@[0]);
        assert("cluster_name"@[0] != "private_port"@[0]);
        assert("min_instances"@[1] != "max_instances"@[1]);
    }
    let env = &target.environment;
    // Strings are inserted after the uuids, whose values are not known
    // exactly, so that each string entry is last written by its own insert.
    let mut c = new_context();
    insert_uuid(&mut c, "long_id", &service.long_id);
    let ghost before = context_texts(c);
    insert_uuid(&mut c, "project_long_id", &env.project_long_id);
    proof {
        assert(before.remove("project_long_id"@).contains_key("long_id"@));
    }
    let ghost before = context_texts(c);
    insert_uuid(&mut c, "organization_long_id", &env.organization_long_id);
    proof {
        assert(before.remove("organization_long_id"@).contains_key("long_id"@));
        assert(before.remove("organization_long_id"@).contains_key("project_long_id"@));
    }
    let ghost before = context_texts(c);
    insert_uuid(&mut c, "environment_long_id", &env.long_id);
    proof {
        assert(before.remove("environment_long_id"@).contains_key("long_id"@));
        assert(before.remove("environment_long_id"@).contains_key("project_long_id"@));
        assert(before.remove("environment_long_id"@).contains_key("organization_long_id"@));
    }
    insert_text(&mut c, "id", service.id.as_str());
    insert_text(&mut c, "owner_id", env.owner_id.as_str());
    insert_text(&mut c, "project_id", env.project_id.as_str());
    insert_text(&mut c, "organization_id", env.organization_id.as_str());
    insert_text(&mut c, "environment_id", env.id.as_str());
    insert_text(&mut c, "region", target.cluster.region.as_str());
    insert_text(&mut c, "zone", target.cluster.zone.as_str());
    insert_text(&mut c, "name", service.name.as_str());
    insert_text(&mut c, "sanitized_name", service.sanitized_name.as_str());
    insert_text(&mut c, "namespace", env.namespace.as_str());
    insert_text(&mut c, "cluster_name", target.cluster.name.as_str());
    insert_text(&mut c, "total_cpus", service.total_cpus.as_str());
    insert_text(&mut c, "version", service.version.as_str());
    insert_number(&mut c, "total_ram_in_mib", service.total_ram_in_mib);
    insert_number(&mut c, "min_instances", service.min_instances);
    insert_number(&mut c, "max_instances", service.max_instances);
    insert_flag(&mut c, "is_private_port", service.private_port.is_some());
    match service.private_port {
        Some(p) => insert_number(&mut c, "private_port", p as u32),
        None => {},
    }
    c
}

} // verus!
