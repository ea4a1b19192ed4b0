//! Progress reporting: the events a service outcome produces, the waiting
//! message of a long task, and the decisions of the background reporter.

use vstd::prelude::*;
use vstd::string::*;

use crate::diagnostics::{append_decimal, decimal};
use crate::errors::{CommandError, EngineError, EventDetails};
use crate::model::{service_type_name, Action, CheckAction, ProgressScope, Service, ServiceType};

verus! {

#[derive(Clone, Copy, PartialEq, Eq, Structural, Debug)]
pub enum ProgressLevel {
    Info,
    Error,
    Debug,
}

/// Listener family an event is delivered to.
#[derive(Clone, Copy, PartialEq, Eq, Structural, Debug)]
pub enum ListenerChannel {
    Deployment,
    Pause,
    Delete,
}

/// In-progress or error notification.
#[derive(Clone, Copy, PartialEq, Eq, Structural, Debug)]
pub enum Notification {
    InProgress,
    Error,
}

#[derive(Debug)]
pub struct ProgressInfo {
    pub scope: ProgressScope,
    pub level: ProgressLevel,
    pub message: Option<String>,
    pub execution_id: String,
}

/// One notification to deliver to every listener, in order.
#[derive(Debug)]
pub struct ProgressEvent {
    pub channel: ListenerChannel,
    pub notification: Notification,
    pub info: ProgressInfo,
}

pub open spec fn channel_of(a: CheckAction) -> ListenerChannel {
    match a {
        CheckAction::Deploy => ListenerChannel::Deployment,
        CheckAction::Pause => ListenerChannel::Pause,
        CheckAction::Delete => ListenerChannel::Delete,
    }
}

fn channel_for(a: CheckAction) -> (r: ListenerChannel)
    ensures
        r == channel_of(a),
{
    match a {
        CheckAction::Deploy => ListenerChannel::Deployment,
        CheckAction::Pause => ListenerChannel::Pause,
        CheckAction::Delete => ListenerChannel::Delete,
    }
}

pub open spec fn lowercase_kind_name(t: ServiceType) -> Seq<char> {
    match t {
        ServiceType::Application => "application"@,
        ServiceType::Database(db) => match db {
            crate::model::DatabaseType::PostgreSQL => "postgresql database"@,
            crate::model::DatabaseType::MongoDB => "mongodb database"@,
            crate::model::DatabaseType::MySQL => "mysql database"@,
            crate::model::DatabaseType::Redis => "redis database"@,
        },
        ServiceType::Router => "router"@,
    }
}

/// Kind name in lower case ("application", "redis database", ...).
pub fn lowercase_kind(t: ServiceType) -> (r: String)
    ensures
        r@ == lowercase_kind_name(t),
{
    match t {
        ServiceType::Application => String::from_str("application"),
        ServiceType::Database(db) => match db {
            crate::model::DatabaseType::PostgreSQL => String::from_str("postgresql database"),
            crate::model::DatabaseType::MongoDB => String::from_str("mongodb database"),
            crate::model::DatabaseType::MySQL => String::from_str("mysql database"),
            crate::model::DatabaseType::Redis => String::from_str("redis database"),
        },
        ServiceType::Router => String::from_str("router"),
    }
}

/// Lines joined with newlines; "<no debug logs>" when there is none.
pub open spec fn join_lines(lines: Seq<Seq<char>>) -> Seq<char>
    decreases lines.len(),
{
    if lines.len() == 0 {
        Seq::empty()
    } else if lines.len() == 1 {
        lines[0]
    } else {
        join_lines(lines.drop_last()) + "\n"@ + lines.last()
    }
}

pub open spec fn debug_text(lines: Seq<Seq<char>>) -> Seq<char> {
    if lines.len() == 0 {
        "<no debug logs>"@
    } else {
        join_lines(lines)
    }
}

pub open spec fn line_texts(v: Seq<String>) -> Seq<Seq<char>> {
    v.map_values(|s: String| s@)
}

/// The diagnostic lines as one text.
pub fn debug_logs_text(lines: &Vec<String>) -> (r: String)
    ensures
        r@ == debug_text(line_texts(lines@)),
{
    if lines.len() == 0 {
        return String::from_str("<no debug logs>");
    }
    let mut r = lines[0].clone();
    let mut i: usize = 1;
    proof {
        assert(line_texts(lines@).subrange(0, 1) =~= seq![lines@[0]@]);
    }
    while i < lines.len()
        invariant
            1 <= i <= lines@.len(),
            r@ == join_lines(line_texts(lines@).subrange(0, i as int)),
        decreases lines@.len() - i,
    {
        r.append("\n");
        r.append(lines[i].as_str());
        proof {
            let pre = line_texts(lines@).subrange(0, i + 1);
            assert(pre.drop_last() =~= line_texts(lines@).subrange(0, i as int));
        }
        i = i + 1;
    }
    proof {
        assert(line_texts(lines@).subrange(0, lines@.len() as int) =~= line_texts(lines@));
    }
    r
}

pub open spec fn action_message(verb: Seq<char>, s: Service) -> Seq<char> {
    verb + " "@ + lowercase_kind_name(s.service_type) + " "@ + s.name@
}

pub open spec fn error_message(verb: Seq<char>, s: Service, cause: Seq<char>) -> Seq<char> {
    verb + " error "@ + lowercase_kind_name(s.service_type) + " "@ + s.name@ + " : error => "@ + cause
}

pub open spec fn success_message(verb: Seq<char>, s: Service) -> Seq<char> {
    verb + " succeeded for "@ + lowercase_kind_name(s.service_type) + " "@ + s.name@
}

pub open spec fn underlying_text(e: EngineError) -> Seq<char> {
    match e.spec_underlying() {
        Some(c) => c.message@,
        None => Seq::empty(),
    }
}

/// A notification and its message, as the contracts compare them.
pub open spec fn event_is(
    ev: ProgressEvent,
    channel: ListenerChannel,
    notification: Notification,
    level: ProgressLevel,
    message: Seq<char>,
    s: Service,
) -> bool {
    &&& ev.channel == channel
    &&& ev.notification == notification
    &&& ev.info.level == level
    &&& ev.info.message matches Some(m) && m@ == message
    &&& ev.info.scope.spec_id() == s.id
    &&& (ev.info.scope is Application <==> s.service_type is Application)
    &&& (ev.info.scope is Database <==> s.service_type is Database)
    &&& (ev.info.scope is Router <==> s.service_type is Router)
    &&& ev.info.execution_id == s.context.execution_id
}

/// A notification about a service, routed by its progress scope.
pub fn event(
    channel: ListenerChannel,
    notification: Notification,
    level: ProgressLevel,
    message: String,
    service: &Service,
) -> (r: ProgressEvent)
    ensures
        event_is(r, channel, notification, level, message@, *service),
{
    ProgressEvent {
        channel,
        notification,
        info: ProgressInfo {
            scope: service.progress_scope(),
            level,
            message: Some(message),
            execution_id: service.context.execution_id.clone(),
        },
    }
}

/// The notifications a service operation's outcome produces, and the error
/// returned for it. Every outcome first announces the action; a success then
/// reports it; a failure reports an error summary, then the diagnostics
/// (`debug_logs`, gathered best-effort by the caller), and returns a
/// cluster-service error carrying the underlying failure.
pub fn check_kubernetes_service_error(
    result: Result<(), EngineError>,
    service: &Service,
    event_details: EventDetails,
    action_verb: &str,
    action: CheckAction,
    debug_logs: &Vec<String>,
) -> (r: (Vec<ProgressEvent>, Result<(), EngineError>))
    ensures
        r.0@.len() == if result is Ok { 2int } else { 3int },
        event_is(
            r.0@[0],
            channel_of(action),
            Notification::InProgress,
            ProgressLevel::Info,
            action_message(action_verb@, *service),
            *service,
        ),
        result is Ok ==> r.1 is Ok && event_is(
            r.0@[1],
            channel_of(action),
            Notification::InProgress,
            ProgressLevel::Info,
            success_message(action_verb@, *service),
            *service,
        ),
        result matches Err(e) ==> {
            &&& event_is(
                r.0@[1],
                channel_of(action),
                Notification::Error,
                ProgressLevel::Error,
                error_message(action_verb@, *service, underlying_text(e)),
                *service,
            )
            &&& event_is(
                r.0@[2],
                channel_of(action),
                Notification::Error,
                ProgressLevel::Debug,
                debug_text(line_texts(debug_logs@)),
                *service,
            )
            &&& r.1 matches Err(EngineError::ClusterServiceIssue { details, cause }) && details == event_details
                && cause.message@ == underlying_text(e)
        },
{
    let channel = channel_for(action);
    let mut events: Vec<ProgressEvent> = Vec::new();
    let mut m = String::from_str(action_verb);
    m.append(" ");
    m.append(lowercase_kind(service.service_type).as_str());
    m.append(" ");
    m.append(service.name.as_str());
    events.push(event(channel, Notification::InProgress, ProgressLevel::Info, m, service));
    match result {
        Ok(()) => {
            let mut m = String::from_str(action_verb);
            m.append(" succeeded for ");
            m.append(lowercase_kind(service.service_type).as_str());
            m.append(" ");
            m.append(service.name.as_str());
            events.push(event(channel, Notification::InProgress, ProgressLevel::Info, m, service));
            (events, Ok(()))
        },
        Err(err) => {
            let cause = match err.underlying_error() {
                Some(c) => c,
                None => CommandError::new(String::new()),
            };
            let mut m = String::from_str(action_verb);
            m.append(" error ");
            m.append(lowercase_kind(service.service_type).as_str());
            m.append(" ");
            m.append(service.name.as_str());
            m.append(" : error => ");
            m.append(cause.message.as_str());
            events.push(event(channel, Notification::Error, ProgressLevel::Error, m, service));
            let logs = debug_logs_text(debug_logs);
            events.push(event(channel, Notification::Error, ProgressLevel::Debug, logs, service));
            (events, Err(EngineError::ClusterServiceIssue { details: event_details, cause }))
        },
    }
}

pub open spec fn waiting_text(a: Action, s: Service) -> Option<Seq<char>> {
    let head = service_type_name(s.service_type) + " '"@ + s.spec_name_with_id_and_version();
    match a {
        Action::Create => Some(head + "' deployment is in progress..."@),
        Action::Pause => Some(head + "' pause is in progress..."@),
        Action::Delete => Some(head + "' deletion is in progress..."@),
        Action::Nothing => None,
    }
}

/// The message repeated while a long task runs; none for `Nothing`.
pub fn waiting_message(service: &Service, action: Action) -> (r: Option<String>)
    ensures
        r is Some <==> waiting_text(action, *service) is Some,
        r matches Some(m) ==> Some(m@) == waiting_text(action, *service),
{
    let tail = match action {
        Action::Create => "' deployment is in progress...",
        Action::Pause => "' pause is in progress...",
        Action::Delete => "' deletion is in progress...",
        Action::Nothing => {
            return None;
        },
    };
    let mut m = service.service_type.name();
    m.append(" '");
    m.append(service.name_with_id_and_version().as_str());
    m.append(tail);
    Some(m)
}

/// Listener family an action's progress goes to; none for `Nothing`.
pub open spec fn action_channel(a: Action) -> Option<ListenerChannel> {
    match a {
        Action::Create => Some(ListenerChannel::Deployment),
        Action::Pause => Some(ListenerChannel::Pause),
        Action::Delete => Some(ListenerChannel::Delete),
        Action::Nothing => None,
    }
}

pub fn channel_of_action(a: Action) -> (r: Option<ListenerChannel>)
    ensures
        r == action_channel(a),
{
    match a {
        Action::Create => Some(ListenerChannel::Deployment),
        Action::Pause => Some(ListenerChannel::Pause),
        Action::Delete => Some(ListenerChannel::Delete),
        Action::Nothing => None,
    }
}

pub open spec fn start_message(s: Service, pods: nat, services: nat, volumes: nat) -> Seq<char> {
    "Application `"@ + s.id@ + "` deployment is going to start: You have "@ + decimal(pods) + " pod(s) running, "@
        + decimal(services) + " service(s) running, "@ + decimal(volumes) + " network volume(s)"@
}

/// The report sent before an application's deployment starts, from the
/// numbers of pods, services and network volumes found in the cluster.
pub fn deployment_start_message(service: &Service, pods: u64, services: u64, volumes: u64) -> (r: String)
    ensures
        r@ == start_message(*service, pods as nat, services as nat, volumes as nat),
{
    let mut m = String::from_str("Application `");
    m.append(service.id.as_str());
    m.append("` deployment is going to start: You have ");
    append_decimal(&mut m, pods);
    m.append(" pod(s) running, ");
    append_decimal(&mut m, services);
    m.append(" service(s) running, ");
    append_decimal(&mut m, volumes);
    m.append(" network volume(s)");
    m
}

/// What the background reporter observed when its wait ended.
#[derive(Clone, Copy, PartialEq, Eq, Structural, Debug)]
pub enum Wake {
    /// The tick interval elapsed with no signal: the task still runs.
    Timeout,
    /// The caller signalled that the task is over.
    Stopped,
    /// The caller's end of the channel is gone.
    Disconnected,
}

#[derive(Clone, Copy, PartialEq, Eq, Structural, Debug)]
pub enum ReporterAction {
    Emit,
    Halt,
}

/// Transition of the reporter: (stopped after, action).
pub open spec fn reporter_step(stopped: bool, w: Wake) -> (bool, ReporterAction) {
    if stopped {
        (true, ReporterAction::Halt)
    } else {
        match w {
            Wake::Timeout => (false, ReporterAction::Emit),
            _ => (true, ReporterAction::Halt),
        }
    }
}

/// Actions of a reporter that first emits, then acts on each wake in turn.
pub open spec fn reporter_run(wakes: Seq<Wake>) -> Seq<ReporterAction>
    decreases wakes.len(),
{
    if wakes.len() == 0 {
        seq![ReporterAction::Emit]
    } else {
        reporter_run(wakes.drop_last()).push(reporter_step(reporter_stopped(wakes.drop_last()), wakes.last()).1)
    }
}

/// Whether the reporter has stopped after the given wakes.
pub open spec fn reporter_stopped(wakes: Seq<Wake>) -> bool
    decreases wakes.len(),
{
    if wakes.len() == 0 {
        false
    } else {
        reporter_step(reporter_stopped(wakes.drop_last()), wakes.last()).0
    }
}

/// The background reporter of a long task.
#[derive(Debug)]
pub struct Reporter {
    pub stopped: bool,
}

impl Reporter {
    /// A running reporter, and its first action: report at once, before
    /// the first wait.
    pub fn start() -> (r: (Reporter, ReporterAction))
        ensures
            !r.0.stopped,
            r.1 == reporter_run(Seq::empty())[0],
            r.1 is Emit,
    {
        (Reporter { stopped: false }, ReporterAction::Emit)
    }

    /// Decides what to do after a wait: emit while the task runs, halt for
    /// good once a stop signal or a disconnection is seen.
    pub fn on_wake(&mut self, w: Wake) -> (r: ReporterAction)
        ensures
            (final(self).stopped, r) == reporter_step(old(self).stopped, w),
    {
        if self.stopped {
            ReporterAction::Halt
        } else {
            match w {
                Wake::Timeout => ReporterAction::Emit,
                _ => {
                    self.stopped = true;
                    ReporterAction::Halt
                },
            }
        }
    }
}

} // verus!
