//! Version strings and the requested-versus-resolved version check.

use vstd::prelude::*;
use vstd::string::*;

use crate::errors::{CommandError, EngineError, EventDetails};
use crate::model::{service_type_name, Service};
use crate::progress::{event, event_is, ListenerChannel, Notification, ProgressEvent, ProgressLevel};

verus! {

/// The pieces of a version string between dots.
pub open spec fn dot_split(s: Seq<char>) -> Seq<Seq<char>>
    decreases s.len(),
{
    if s.len() == 0 {
        seq![Seq::<char>::empty()]
    } else {
        let p = dot_split(s.drop_last());
        if s.last() == '.' {
            p.push(Seq::<char>::empty())
        } else {
            p.update(p.len() - 1, p.last().push(s.last()))
        }
    }
}

pub proof fn lemma_dot_split_nonempty(s: Seq<char>)
    ensures
        dot_split(s).len() >= 1,
    decreases s.len(),
{
    if s.len() > 0 {
        lemma_dot_split_nonempty(s.drop_last());
    }
}

/// A version is well formed when it is not empty and no piece between dots is empty.
pub open spec fn valid_version(s: Seq<char>) -> bool {
    &&& s.len() > 0
    &&& forall|i: int| 0 <= i < dot_split(s).len() ==> (#[trigger] dot_split(s)[i]).len() > 0
}

/// A parsed version: its dot-separated pieces ("1.2.3" has three).
#[derive(Debug)]
pub struct VersionsNumber {
    pub parts: Vec<String>,
}

pub open spec fn texts(v: Seq<String>) -> Seq<Seq<char>> {
    v.map_values(|s: String| s@)
}

impl View for VersionsNumber {
    type V = Seq<Seq<char>>;

    open spec fn view(&self) -> Seq<Seq<char>> {
        texts(self.parts@)
    }
}

impl VersionsNumber {
    /// A piece-for-piece copy.
    pub fn duplicate(&self) -> (r: Self)
        ensures
            r@ == self@,
    {
        let mut parts: Vec<String> = Vec::new();
        let mut i: usize = 0;
        while i < self.parts.len()
            invariant
                i <= self.parts@.len(),
                texts(parts@) == texts(self.parts@.subrange(0, i as int)),
            decreases self.parts@.len() - i,
        {
            let ghost before = parts@;
            parts.push(self.parts[i].clone());
            proof {
                assert(texts(parts@) =~= texts(before).push(self.parts@[i as int]@));
                assert(self.parts@.subrange(0, i + 1) =~= self.parts@.subrange(0, i as int).push(self.parts@[i as int]));
                assert(texts(parts@) =~= texts(self.parts@.subrange(0, i + 1)));
            }
            i = i + 1;
        }
        proof {
            assert(self.parts@.subrange(0, self.parts@.len() as int) == self.parts@);
        }
        VersionsNumber { parts }
    }

    /// Parses a version string.
    pub fn parse(s: &str) -> (r: Result<VersionsNumber, CommandError>)
        ensures
            r is Ok <==> valid_version(s@),
            r matches Ok(v) ==> v@ == dot_split(s@),
    {
        let n = s.unicode_len();
        let mut parts: Vec<String> = Vec::new();
        let mut start: usize = 0;
        let mut i: usize = 0;
        proof {
            assert(s@.subrange(0, 0) =~= Seq::<char>::empty());
            assert(texts(parts@).push(s@.subrange(0, 0)) =~= seq![Seq::<char>::empty()]);
        }
        while i < n
            invariant
                n == s@.len(),
                start <= i <= n,
                texts(parts@).push(s@.subrange(start as int, i as int)) == dot_split(s@.subrange(0, i as int)),
            decreases n - i,
        {
            let c = s.get_char(i);
            proof {
                let pre = s@.subrange(0, i + 1);
                assert(pre.drop_last() == s@.subrange(0, i as int));
                assert(pre.last() == c);
                lemma_dot_split_nonempty(s@.subrange(0, i as int));
            }
            if c == '.' {
                let piece = String::from_str(s.substring_char(start, i));
                let ghost before = parts@;
                parts.push(piece);
                proof {
                    assert(texts(parts@) =~= texts(before).push(s@.subrange(start as int, i as int)));
                }
                start = i + 1;
                proof {
                    assert(s@.subrange(start as int, i + 1) =~= Seq::<char>::empty());
                    assert(texts(parts@).push(s@.subrange(start as int, i + 1)) =~= dot_split(
                        s@.subrange(0, i + 1),
                    ));
                }
            } else {
                proof {
                    assert(s@.subrange(start as int, i + 1) =~= s@.subrange(start as int, i as int).push(c));
                    assert(texts(parts@).push(s@.subrange(start as int, i + 1)) =~= dot_split(
                        s@.subrange(0, i + 1),
                    ));
                }
            }
            i = i + 1;
        }
        let last = String::from_str(s.substring_char(start, n));
        parts.push(last);
        proof {
            assert(s@.subrange(0, n as int) == s@);
            assert(texts(parts@) =~= dot_split(s@));
        }
        if n == 0 {
            return Err(CommandError::new(String::from_str("version cannot be empty")));
        }
        let mut k: usize = 0;
        while k < parts.len()
            invariant
                k <= parts@.len(),
                texts(parts@) == dot_split(s@),
                forall|j: int| 0 <= j < k ==> (#[trigger] dot_split(s@)[j]).len() > 0,
            decreases parts@.len() - k,
        {
            if parts[k].unicode_len() == 0 {
                proof {
                    assert(texts(parts@)[k as int] == parts@[k as int]@);
                }
                return Err(CommandError::new(String::from_str("version has an empty component")));
            }
            proof {
                assert(texts(parts@)[k as int] == parts@[k as int]@);
            }
            k = k + 1;
        }
        Ok(VersionsNumber { parts })
    }
}

/// Requested against resolved version, with an advisory when they differ.
#[derive(Debug)]
pub struct ServiceVersionCheckResult {
    requested_version: VersionsNumber,
    matched_version: VersionsNumber,
    message: Option<String>,
}

impl ServiceVersionCheckResult {
    pub closed spec fn spec_requested(&self) -> Seq<Seq<char>> {
        self.requested_version@
    }

    pub closed spec fn spec_matched(&self) -> Seq<Seq<char>> {
        self.matched_version@
    }

    pub closed spec fn spec_message(&self) -> Option<String> {
        self.message
    }

    pub fn new(requested_version: VersionsNumber, matched_version: VersionsNumber, message: Option<String>) -> (r:
        Self)
        ensures
            r.spec_requested() == requested_version@,
            r.spec_matched() == matched_version@,
            r.spec_message() == message,
    {
        ServiceVersionCheckResult { requested_version, matched_version, message }
    }

    pub fn matched_version(&self) -> (r: VersionsNumber)
        ensures
            r@ == self.spec_matched(),
    {
        self.matched_version.duplicate()
    }

    pub fn requested_version(&self) -> (r: &VersionsNumber)
        ensures
            r@ == self.spec_requested(),
    {
        &self.requested_version
    }

    pub fn message(&self) -> (r: Option<String>)
        ensures
            r == self.spec_message(),
    {
        match &self.message {
            Some(m) => Some(m.clone()),
            None => None,
        }
    }
}

pub open spec fn mismatch_message(kind_name: Seq<char>, requested: Seq<char>, matched: Seq<char>) -> Seq<char> {
    kind_name + " version `"@ + requested + "` has been requested by the user; but matching version is `"@
        + matched + "`"@
}

pub open spec fn unsupported_message(kind_name: Seq<char>, version: Seq<char>) -> Seq<char> {
    kind_name + " version "@ + version + " is not supported!"@
}

/// The advisory text when the resolved version differs from the requested one.
pub fn version_mismatch_message(service: &Service, matched: &str) -> (r: String)
    ensures
        r@ == mismatch_message(service_type_name(service.service_type), service.version@, matched@),
{
    let mut m = service.service_type.name();
    m.append(" version `");
    m.append(service.version.as_str());
    m.append("` has been requested by the user; but matching version is `");
    m.append(matched);
    m.append("`");
    m
}

/// The error text when no version could be resolved.
pub fn unsupported_version_message(service: &Service) -> (r: String)
    ensures
        r@ == unsupported_message(service_type_name(service.service_type), service.version@),
{
    let mut m = service.service_type.name();
    m.append(" version ");
    m.append(service.version.as_str());
    m.append(" is not supported!");
    m
}

/// The outcome of the version check, without its notifications.
fn version_check_result(
    result: Result<String, CommandError>,
    service: &Service,
    event_details: EventDetails,
) -> (r: Result<ServiceVersionCheckResult, EngineError>)
    ensures
        result is Err ==> (r matches Err(EngineError::UnsupportedVersion { details, service_type, version }) && details
            == event_details && service_type@ == service_type_name(service.service_type) && version
            == service.version),
        result matches Ok(v) ==> {
            if !valid_version(service.version@) {
                r matches Err(EngineError::VersionParsing { details, raw_version, .. }) && details == event_details
                    && raw_version == service.version
            } else if !valid_version(v@) {
                r matches Err(EngineError::VersionParsing { details, raw_version, .. }) && details == event_details
                    && raw_version == v
            } else {
                &&& r matches Ok(c)
                &&& r->Ok_0.spec_requested() == dot_split(service.version@)
                &&& r->Ok_0.spec_matched() == dot_split(v@)
                &&& service.version@ == v@ ==> r->Ok_0.spec_message() is None
                &&& service.version@ != v@ ==> (r->Ok_0.spec_message() matches Some(m) && m@
                    == mismatch_message(service_type_name(service.service_type), service.version@, v@))
            }
        },
{
    match result {
        Err(_) => Err(
            EngineError::UnsupportedVersion {
                details: event_details,
                service_type: service.service_type.name(),
                version: service.version.clone(),
            },
        ),
        Ok(v) => {
            let requested = match VersionsNumber::parse(service.version.as_str()) {
                Ok(x) => x,
                Err(e) => {
                    return Err(
                        EngineError::VersionParsing {
                            details: event_details,
                            raw_version: service.version.clone(),
                            cause: e,
                        },
                    );
                },
            };
            let matched = match VersionsNumber::parse(v.as_str()) {
                Ok(x) => x,
                Err(e) => {
                    return Err(EngineError::VersionParsing { details: event_details, raw_version: v, cause: e });
                },
            };
            let message = if service.version != v {
                Some(version_mismatch_message(service, v.as_str()))
            } else {
                None
            };
            Ok(ServiceVersionCheckResult::new(requested, matched, message))
        },
    }
}

/// Checks the version the provisioner resolved (`result`) against the
/// version the service requests. A resolved version that differs from the
/// requested one is reported as deployment progress; no resolved version is
/// reported as a deployment error.
pub fn check_service_version(
    result: Result<String, CommandError>,
    service: &Service,
    event_details: EventDetails,
) -> (r: (Vec<ProgressEvent>, Result<ServiceVersionCheckResult, EngineError>))
    ensures
        result is Err ==> {
            &&& r.0@.len() == 1
            &&& event_is(
                r.0@[0],
                ListenerChannel::Deployment,
                Notification::Error,
                ProgressLevel::Error,
                unsupported_message(service_type_name(service.service_type), service.version@),
                *service,
            )
        },
        result matches Ok(v) ==> (service.version@ == v@ ==> r.0@.len() == 0),
        result matches Ok(v) ==> (service.version@ != v@ ==> {
            &&& r.0@.len() == 1
            &&& event_is(
                r.0@[0],
                ListenerChannel::Deployment,
                Notification::InProgress,
                ProgressLevel::Info,
                mismatch_message(service_type_name(service.service_type), service.version@, v@),
                *service,
            )
        }),
        result is Err ==> (r.1 matches Err(EngineError::UnsupportedVersion { details, service_type, version })
            && details == event_details && service_type@ == service_type_name(service.service_type) && version
            == service.version),
        result matches Ok(v) ==> {
            if !valid_version(service.version@) {
                r.1 matches Err(EngineError::VersionParsing { details, raw_version, .. }) && details == event_details
                    && raw_version == service.version
            } else if !valid_version(v@) {
                r.1 matches Err(EngineError::VersionParsing { details, raw_version, .. }) && details == event_details
                    && raw_version == v
            } else {
                &&& r.1 matches Ok(c)
                &&& r.1->Ok_0.spec_requested() == dot_split(service.version@)
                &&& r.1->Ok_0.spec_matched() == dot_split(v@)
                &&& service.version@ == v@ ==> r.1->Ok_0.spec_message() is None
                &&& service.version@ != v@ ==> (r.1->Ok_0.spec_message() matches Some(m) && m@
                    == mismatch_message(service_type_name(service.service_type), service.version@, v@))
            }
        },
{
    let mut events: Vec<ProgressEvent> = Vec::new();
    match &result {
        Err(_) => {
            events.push(
                event(
                    ListenerChannel::Deployment,
                    Notification::Error,
                    ProgressLevel::Error,
                    unsupported_version_message(service),
                    service,
                ),
            );
        },
        Ok(v) => {
            if service.version != *v {
                events.push(
                    event(
                        ListenerChannel::Deployment,
                        Notification::InProgress,
                        ProgressLevel::Info,
                        version_mismatch_message(service, v.as_str()),
                        service,
                    ),
                );
            }
        },
    }
    (events, version_check_result(result, service, event_details))
}

} // verus!
