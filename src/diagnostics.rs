//! Diagnostic lines shown to the user when a service fails: container logs,
//! unmet pod conditions, last container states and non-normal events.

use vstd::prelude::*;
use vstd::string::*;

use crate::errors::{CommandError, EngineError, EventDetails};

verus! {

/// Code point of a character with ASCII upper case folded to lower case.
pub open spec fn ascii_lower(c: char) -> u32 {
    if 'A' <= c && c <= 'Z' {
        (c as u32 + 32) as u32
    } else {
        c as u32
    }
}

/// Equality of two texts up to ASCII case.
pub open spec fn same_ignoring_case(a: Seq<char>, b: Seq<char>) -> bool {
    &&& a.len() == b.len()
    &&& forall|i: int| 0 <= i < a.len() ==> ascii_lower(#[trigger] a[i]) == ascii_lower(b[i])
}

fn lower_char(c: char) -> (r: u32)
    ensures
        r == ascii_lower(c),
{
    if 'A' <= c && c <= 'Z' {
        c as u32 + 32
    } else {
        c as u32
    }
}

/// Compares two texts up to ASCII case.
pub fn equals_ignoring_case(a: &str, b: &str) -> (r: bool)
    ensures
        r == same_ignoring_case(a@, b@),
{
    let n = a.unicode_len();
    if n != b.unicode_len() {
        return false;
    }
    let mut i: usize = 0;
    while i < n
        invariant
            n == a@.len(),
            n == b@.len(),
            i <= n,
            forall|k: int| 0 <= k < i ==> ascii_lower(#[trigger] a@[k]) == ascii_lower(b@[k]),
        decreases n - i,
    {
        if lower_char(a.get_char(i)) != lower_char(b.get_char(i)) {
            return false;
        }
        i = i + 1;
    }
    true
}

pub open spec fn digit_char(d: nat) -> char {
    ('0' as u32 + d) as char
}

/// Decimal digits of a natural number.
pub open spec fn decimal(n: nat) -> Seq<char>
    decreases n,
{
    if n < 10 {
        seq![digit_char(n)]
    } else {
        decimal(n / 10).push(digit_char(n % 10))
    }
}

/// Decimal text of an integer, with a leading minus when negative.
pub open spec fn int_text(n: int) -> Seq<char> {
    if n < 0 {
        seq!['-'] + decimal((-n) as nat)
    } else {
        decimal(n as nat)
    }
}

fn digit_text(d: u64) -> (r: &'static str)
    requires
        d < 10,
    ensures
        r@ == seq![digit_char(d as nat)],
{
    proof {
        reveal_strlit("0");
        reveal_strlit("1");
        reveal_strlit("2");
        reveal_strlit("3");
        reveal_strlit("4");
        reveal_strlit("5");
        reveal_strlit("6");
        reveal_strlit("7");
        reveal_strlit("8");
        reveal_strlit("9");
    }
    let r = if d == 0 {
        "0"
    } else if d == 1 {
        "1"
    } else if d == 2 {
        "2"
    } else if d == 3 {
        "3"
    } else if d == 4 {
        "4"
    } else if d == 5 {
        "5"
    } else if d == 6 {
        "6"
    } else if d == 7 {
        "7"
    } else if d == 8 {
        "8"
    } else {
        "9"
    };
    proof {
        assert(r@ =~= seq![digit_char(d as nat)]);
    }
    r
}

/// Appends the decimal digits of a number.
pub(crate) fn append_decimal(s: &mut String, n: u64)
    ensures
        final(s)@ == old(s)@ + decimal(n as nat),
    decreases n,
{
    if n >= 10 {
        append_decimal(s, n / 10);
    }
    s.append(digit_text(n % 10));
    proof {
        if n >= 10 {
            assert(decimal(n as nat) == decimal((n / 10) as nat).push(digit_char((n % 10) as nat)));
        }
    }
}

/// Decimal text of an exit code.
pub fn exit_code_text(n: i32) -> (r: String)
    ensures
        r@ == int_text(n as int),
{
    let mut s = String::new();
    if n < 0 {
        s.append("-");
        let m: i64 = -(n as i64);
        append_decimal(&mut s, m as u64);
        proof {
            reveal_strlit("-");
            assert(s@ =~= int_text(n as int));
        }
    } else {
        append_decimal(&mut s, n as u64);
        proof {
            assert(s@ =~= int_text(n as int));
        }
    }
    s
}

/// A condition of a pod.
#[derive(Debug)]
pub struct PodCondition {
    pub condition_type: String,
    pub status: String,
    pub reason: Option<String>,
    pub message: Option<String>,
}

#[derive(Debug)]
pub struct TerminatedState {
    pub exit_code: i32,
    pub message: Option<String>,
}

#[derive(Debug)]
pub struct WaitingState {
    pub message: Option<String>,
}

#[derive(Debug)]
pub struct ContainerState {
    pub terminated: Option<TerminatedState>,
    pub waiting: Option<WaitingState>,
}

#[derive(Debug)]
pub struct ContainerStatus {
    pub last_state: Option<ContainerState>,
}

/// What the diagnostics read of one pod.
#[derive(Debug)]
pub struct PodDiagnostics {
    pub conditions: Vec<PodCondition>,
    pub container_statuses: Vec<ContainerStatus>,
}

/// An event of the namespace.
#[derive(Debug)]
pub struct ClusterEvent {
    pub event_type: String,
    pub reason: String,
    pub message: Option<String>,
    pub last_timestamp: Option<String>,
}

pub open spec fn text_or_empty(o: Option<String>) -> Seq<char> {
    match o {
        Some(s) => s@,
        None => Seq::empty(),
    }
}

fn copy_or_empty(o: &Option<String>) -> (r: String)
    ensures
        r@ == text_or_empty(*o),
{
    match o {
        Some(s) => s.clone(),
        None => String::new(),
    }
}

pub open spec fn texts(v: Seq<String>) -> Seq<Seq<char>> {
    v.map_values(|s: String| s@)
}

/// Line of a condition that is not met (status "false" in any case).
pub open spec fn condition_lines(c: PodCondition) -> Seq<Seq<char>> {
    if same_ignoring_case(c.status@, "false"@) {
        seq![
            "Condition not met to start the container: "@ + c.condition_type@ + " -> "@ + text_or_empty(c.reason)
                + ": "@ + text_or_empty(c.message),
        ]
    } else {
        Seq::empty()
    }
}

/// Lines of a container's last state: termination message and exit code,
/// waiting message.
pub open spec fn status_lines(s: ContainerStatus) -> Seq<Seq<char>> {
    match s.last_state {
        None => Seq::empty(),
        Some(st) => {
            let term = match st.terminated {
                None => Seq::empty(),
                Some(t) => match t.message {
                    Some(m) => seq![
                        "terminated state message: "@ + m@,
                        "terminated state exit code: "@ + int_text(t.exit_code as int),
                    ],
                    None => seq!["terminated state exit code: "@ + int_text(t.exit_code as int)],
                },
            };
            let wait = match st.waiting {
                Some(WaitingState { message: Some(m) }) => seq!["waiting state message: "@ + m@],
                _ => Seq::empty(),
            };
            term + wait
        },
    }
}

/// Line of an event that is not "normal" (in any case) and has a message.
pub open spec fn event_lines(e: ClusterEvent) -> Seq<Seq<char>> {
    if !same_ignoring_case(e.event_type@, "normal"@) && e.message is Some {
        seq![
            text_or_empty(e.last_timestamp) + " "@ + e.event_type@ + " "@ + e.reason@ + ": "@ + e.message->Some_0@,
        ]
    } else {
        Seq::empty()
    }
}

pub open spec fn flat_conditions(cs: Seq<PodCondition>) -> Seq<Seq<char>>
    decreases cs.len(),
{
    if cs.len() == 0 {
        Seq::empty()
    } else {
        flat_conditions(cs.drop_last()) + condition_lines(cs.last())
    }
}

pub open spec fn flat_statuses(ss: Seq<ContainerStatus>) -> Seq<Seq<char>>
    decreases ss.len(),
{
    if ss.len() == 0 {
        Seq::empty()
    } else {
        flat_statuses(ss.drop_last()) + status_lines(ss.last())
    }
}

pub open spec fn pod_lines(p: PodDiagnostics) -> Seq<Seq<char>> {
    flat_conditions(p.conditions@) + flat_statuses(p.container_statuses@)
}

pub open spec fn flat_pods(ps: Seq<PodDiagnostics>) -> Seq<Seq<char>>
    decreases ps.len(),
{
    if ps.len() == 0 {
        Seq::empty()
    } else {
        flat_pods(ps.drop_last()) + pod_lines(ps.last())
    }
}

pub open spec fn flat_events(es: Seq<ClusterEvent>) -> Seq<Seq<char>>
    decreases es.len(),
{
    if es.len() == 0 {
        Seq::empty()
    } else {
        flat_events(es.drop_last()) + event_lines(es.last())
    }
}

/// All diagnostic lines: the logs, then per pod its conditions and
/// container states, then the events.
pub open spec fn diagnostic_lines(
    logs: Seq<String>,
    pods: Seq<PodDiagnostics>,
    events: Seq<ClusterEvent>,
) -> Seq<Seq<char>> {
    texts(logs) + flat_pods(pods) + flat_events(events)
}

fn push_all(r: &mut Vec<String>, more: Vec<String>)
    ensures
        texts(final(r)@) == texts(old(r)@) + texts(more@),
{
    let mut more = more;
    let ghost m = more@;
    r.append(&mut more);
    proof {
        assert(texts(r@) =~= texts(old(r)@) + texts(m));
    }
}

fn condition_text(c: &PodCondition) -> (r: Vec<String>)
    ensures
        texts(r@) == condition_lines(*c),
{
    let mut r: Vec<String> = Vec::new();
    if equals_ignoring_case(c.status.as_str(), "false") {
        let mut m = String::from_str("Condition not met to start the container: ");
        m.append(c.condition_type.as_str());
        m.append(" -> ");
        m.append(copy_or_empty(&c.reason).as_str());
        m.append(": ");
        m.append(copy_or_empty(&c.message).as_str());
        r.push(m);
    }
    proof {
        assert(texts(r@) =~= condition_lines(*c));
    }
    r
}

fn status_text(s: &ContainerStatus) -> (r: Vec<String>)
    ensures
        texts(r@) == status_lines(*s),
{
    let mut r: Vec<String> = Vec::new();
    match &s.last_state {
        None => {},
        Some(st) => {
            match &st.terminated {
                None => {},
                Some(t) => {
                    match &t.message {
                        Some(m) => {
                            let mut line = String::from_str("terminated state message: ");
                            line.append(m.as_str());
                            r.push(line);
                        },
                        None => {},
                    }
                    let mut line = String::from_str("terminated state exit code: ");
                    line.append(exit_code_text(t.exit_code).as_str());
                    r.push(line);
                },
            }
            match &st.waiting {
                Some(w) => match &w.message {
                    Some(m) => {
                        let mut line = String::from_str("waiting state message: ");
                        line.append(m.as_str());
                        r.push(line);
                    },
                    None => {},
                },
                None => {},
            }
        },
    }
    proof {
        assert(texts(r@) =~= status_lines(*s));
    }
    r
}

fn event_text(e: &ClusterEvent) -> (r: Vec<String>)
    ensures
        texts(r@) == event_lines(*e),
{
    let mut r: Vec<String> = Vec::new();
    if !equals_ignoring_case(e.event_type.as_str(), "normal") {
        match &e.message {
            Some(msg) => {
                let mut line = copy_or_empty(&e.last_timestamp);
                line.append(" ");
                line.append(e.event_type.as_str());
                line.append(" ");
                line.append(e.reason.as_str());
                line.append(": ");
                line.append(msg.as_str());
                r.push(line);
            },
            None => {},
        }
    }
    proof {
        assert(texts(r@) =~= event_lines(*e));
    }
    r
}

fn pod_text(p: &PodDiagnostics) -> (r: Vec<String>)
    ensures
        texts(r@) == pod_lines(*p),
{
    let mut r: Vec<String> = Vec::new();
    let mut i: usize = 0;
    while i < p.conditions.len()
        invariant
            i <= p.conditions@.len(),
            texts(r@) == flat_conditions(p.conditions@.subrange(0, i as int)),
        decreases p.conditions@.len() - i,
    {
        push_all(&mut r, condition_text(&p.conditions[i]));
        proof {
            assert(p.conditions@.subrange(0, i + 1).drop_last() =~= p.conditions@.subrange(0, i as int));
        }
        i = i + 1;
    }
    proof {
        assert(p.conditions@.subrange(0, p.conditions@.len() as int) =~= p.conditions@);
    }
    let ghost mid = texts(r@);
    let mut j: usize = 0;
    proof {
        assert(texts(r@) =~= mid + flat_statuses(p.container_statuses@.subrange(0, 0)));
    }
    while j < p.container_statuses.len()
        invariant
            j <= p.container_statuses@.len(),
            mid == flat_conditions(p.conditions@),
            texts(r@) == mid + flat_statuses(p.container_statuses@.subrange(0, j as int)),
        decreases p.container_statuses@.len() - j,
    {
        push_all(&mut r, status_text(&p.container_statuses[j]));
        proof {
            let pre = p.container_statuses@.subrange(0, j + 1);
            assert(pre.drop_last() =~= p.container_statuses@.subrange(0, j as int));
            assert(texts(r@) =~= mid + flat_statuses(pre));
        }
        j = j + 1;
    }
    proof {
        assert(p.container_statuses@.subrange(0, p.container_statuses@.len() as int) =~= p.container_statuses@);
    }
    r
}

/// The diagnostic lines of a failed service, from what the cluster reported.
pub fn get_stateless_resource_information_for_user(
    logs: Vec<String>,
    pods: &Vec<PodDiagnostics>,
    events: &Vec<ClusterEvent>,
) -> (r: Vec<String>)
    ensures
        texts(r@) == diagnostic_lines(logs@, pods@, events@),
{
    let ghost l = logs@;
    let mut r = logs;
    let mut i: usize = 0;
    proof {
        assert(texts(r@) =~= texts(l) + flat_pods(pods@.subrange(0, 0)));
    }
    while i < pods.len()
        invariant
            i <= pods@.len(),
            texts(r@) == texts(l) + flat_pods(pods@.subrange(0, i as int)),
        decreases pods@.len() - i,
    {
        push_all(&mut r, pod_text(&pods[i]));
        proof {
            let pre = pods@.subrange(0, i + 1);
            assert(pre.drop_last() =~= pods@.subrange(0, i as int));
            assert(texts(r@) =~= texts(l) + flat_pods(pre));
        }
        i = i + 1;
    }
    proof {
        assert(pods@.subrange(0, pods@.len() as int) =~= pods@);
    }
    let ghost mid = texts(r@);
    let mut j: usize = 0;
    proof {
        assert(texts(r@) =~= mid + flat_events(events@.subrange(0, 0)));
    }
    while j < events.len()
        invariant
            j <= events@.len(),
            mid == texts(l) + flat_pods(pods@),
            texts(r@) == mid + flat_events(events@.subrange(0, j as int)),
        decreases events@.len() - j,
    {
        push_all(&mut r, event_text(&events[j]));
        proof {
            let pre = events@.subrange(0, j + 1);
            assert(pre.drop_last() =~= events@.subrange(0, j as int));
            assert(texts(r@) =~= mid + flat_events(pre));
        }
        j = j + 1;
    }
    proof {
        assert(events@.subrange(0, events@.len() as int) =~= events@);
    }
    r
}

/// Best-effort diagnostics: the lines when logs, pods and events were all
/// fetched; otherwise no line, and the classified error of the first fetch
/// that failed (logs, then pods, then events), for the caller to log.
pub fn debug_logs(
    logs: Result<Vec<String>, CommandError>,
    pods: Result<Vec<PodDiagnostics>, CommandError>,
    events: Result<Vec<ClusterEvent>, CommandError>,
    event_details: EventDetails,
    selector: &str,
    namespace: &str,
) -> (r: (Vec<String>, Option<EngineError>))
    ensures
        (logs is Err || pods is Err || events is Err) ==> r.0@.len() == 0,
        (logs is Ok && pods is Ok && events is Ok) ==> texts(r.0@) == diagnostic_lines(
            logs->Ok_0@,
            pods->Ok_0@,
            events->Ok_0@,
        ) && r.1 is None,
        logs matches Err(e) ==> r.1 == Some(
            EngineError::LogsUnavailable {
                details: event_details,
                selector: r.1->Some_0->LogsUnavailable_selector,
                namespace: r.1->Some_0->LogsUnavailable_namespace,
                cause: e,
            },
        ) && r.1->Some_0->LogsUnavailable_selector@ == selector@ && r.1->Some_0->LogsUnavailable_namespace@
            == namespace@,
        logs is Ok ==> (pods matches Err(e) ==> r.1 == Some(
            EngineError::PodsUnavailable { details: event_details, cause: e },
        )),
        (logs is Ok && pods is Ok) ==> (events matches Err(e) ==> r.1 == Some(
            EngineError::EventsUnavailable {
                details: event_details,
                namespace: r.1->Some_0->EventsUnavailable_namespace,
                cause: e,
            },
        ) && r.1->Some_0->EventsUnavailable_namespace@ == namespace@),
{
    match logs {
        Err(e) => (
            Vec::new(),
            Some(
                EngineError::LogsUnavailable {
                    details: event_details,
                    selector: String::from_str(selector),
                    namespace: String::from_str(namespace),
                    cause: e,
                },
            ),
        ),
        Ok(l) => match pods {
            Err(e) => (Vec::new(), Some(EngineError::PodsUnavailable { details: event_details, cause: e })),
            Ok(p) => match events {
                Err(e) => (
                    Vec::new(),
                    Some(
                        EngineError::EventsUnavailable {
                            details: event_details,
                            namespace: String::from_str(namespace),
                            cause: e,
                        },
                    ),
                ),
                Ok(ev) => (get_stateless_resource_information_for_user(l, &p, &ev), None),
            },
        },
    }
}

} // verus!
