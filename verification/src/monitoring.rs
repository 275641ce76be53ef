use crate::json::int_field;
use crate::json::parse_json_str;
use crate::json::spec_int_field;
use crate::json::spec_opt_str_field;
use crate::json::spec_parse_json;
use crate::json::spec_str_field;
use crate::json::str_field;
use crate::json::opt_str_field;
use crate::json::JsonValue;
use crate::json::SpecJson;
use crate::liveset::live_set_wf;
use vstd::assert_by_contradiction;
use vstd::prelude::*;

verus! {

/// Status payload of a monitoring probe.
#[derive(Debug, Clone)]
pub struct StatusResponse {
    pub status_id: i64,
    pub status_text: String,
    pub msg: Option<String>,
}

/// Model of the status payload.
pub struct SpecStatus {
    pub status_id: int,
    pub status_text: Seq<char>,
    pub msg: Option<Seq<char>>,
}

pub open spec fn status_view(s: StatusResponse) -> SpecStatus {
    SpecStatus {
        status_id: s.status_id as int,
        status_text: s.status_text@,
        msg: s.msg.deep_view(),
    }
}

/// The shape a status body must have: an object with an integer
/// `status_id`, a text `status_text`, and an optional text `msg`; unknown
/// fields are ignored.
pub open spec fn spec_status_of(m: SpecJson) -> Option<SpecStatus> {
    match m {
        SpecJson::Obj(fs) => match (
            spec_int_field(fs, "status_id"@),
            spec_str_field(fs, "status_text"@),
            spec_opt_str_field(fs, "msg"@),
        ) {
            (Some(id), Some(tx), Some(msg)) => Some(
                SpecStatus { status_id: id, status_text: tx, msg },
            ),
            _ => None,
        },
        _ => None,
    }
}

/// Reads the status payload out of a decoded body, or reports that the
/// payload does not have the promised shape.
pub fn status_from_json(v: &JsonValue) -> (r: Option<StatusResponse>)
    ensures
        match r {
            None => spec_status_of(v.view()) is None,
            Some(s) => spec_status_of(v.view()) == Some(status_view(s)),
        },
{
    match v {
        JsonValue::Obj(fs) => {
            let status_id = match int_field(fs, "status_id") {
                None => {
                    return None;
                },
                Some(x) => x,
            };
            let status_text = match str_field(fs, "status_text") {
                None => {
                    return None;
                },
                Some(x) => x,
            };
            let msg = match opt_str_field(fs, "msg") {
                None => {
                    return None;
                },
                Some(x) => x,
            };
            Some(StatusResponse { status_id, status_text, msg })
        },
        _ => None,
    }
}

/// What one probe of one backend yielded, as the driver that performed the
/// HTTP call hands it back: no response at all, or a status code with the
/// body text (`None` when the body could not be read as text).
#[derive(Debug, Clone)]
pub enum ProbeResult {
    NoResponse,
    Response { status: u16, body: Option<String> },
}

/// Classification of one probe. Only `Healthy` keeps a backend in the live
/// set: the monitor defaults to exclusion on any ambiguity.
#[derive(Debug, Clone, Copy, PartialEq, Eq, Structural)]
pub enum ProbeClass {
    /// The probe got no response: transport failure or timeout.
    Unreachable,
    /// HTTP 403 or 404: the monitoring path or credentials are
    /// misconfigured.
    ConfigError,
    /// Any other non-success status.
    HttpExcluded,
    /// A success status whose body is not a status payload.
    DecodeFailed,
    /// The service itself reports the degraded sentinel.
    Degraded,
    /// Reachable, decodable, and not degraded.
    Healthy,
}

/// `status_id` value with which a service reports itself degraded; every
/// other decoded value counts as healthy.
pub open spec fn spec_degraded_id() -> int {
    3
}

pub open spec fn spec_classify_probe(p: ProbeResult) -> ProbeClass {
    match p {
        ProbeResult::NoResponse => ProbeClass::Unreachable,
        ProbeResult::Response { status, body } => {
            if status == 403 || status == 404 {
                ProbeClass::ConfigError
            } else if !(200 <= status && status < 300) {
                ProbeClass::HttpExcluded
            } else {
                match body {
                    None => ProbeClass::DecodeFailed,
                    Some(b) => match spec_parse_json(b@) {
                        None => ProbeClass::DecodeFailed,
                        Some(m) => match spec_status_of(m) {
                            None => ProbeClass::DecodeFailed,
                            Some(st) => if st.status_id == spec_degraded_id() {
                                ProbeClass::Degraded
                            } else {
                                ProbeClass::Healthy
                            },
                        },
                    },
                }
            }
        },
    }
}

/// Classifies one probe outcome exactly as the model does.
pub fn classify_probe(p: &ProbeResult) -> (r: ProbeClass)
    ensures
        r == spec_classify_probe(*p),
{
    match p {
        ProbeResult::NoResponse => ProbeClass::Unreachable,
        ProbeResult::Response { status, body } => {
            let st = *status;
            if st == 403 || st == 404 {
                ProbeClass::ConfigError
            } else if !(200 <= st && st < 300) {
                ProbeClass::HttpExcluded
            } else {
                match body {
                    None => ProbeClass::DecodeFailed,
                    Some(b) => match parse_json_str(b.as_str()) {
                        None => ProbeClass::DecodeFailed,
                        Some(m) => match status_from_json(&m) {
                            None => ProbeClass::DecodeFailed,
                            Some(resp) => if resp.status_id == 3 {
                                ProbeClass::Degraded
                            } else {
                                ProbeClass::Healthy
                            },
                        },
                    },
                }
            }
        },
    }
}

/// The live set one probe cycle produces: exactly the indices classified
/// healthy, in increasing order.
pub open spec fn spec_live_indices(cls: Seq<ProbeClass>) -> Seq<usize>
    decreases cls.len(),
{
    if cls.len() == 0 {
        Seq::empty()
    } else {
        let pre = spec_live_indices(cls.drop_last());
        if cls.last() is Healthy {
            pre.push((cls.len() - 1) as usize)
        } else {
            pre
        }
    }
}

proof fn lemma_live_indices_bound(cls: Seq<ProbeClass>)
    ensures
        live_set_wf(spec_live_indices(cls), cls.len() as nat),
    decreases cls.len(),
{
    if cls.len() > 0 {
        lemma_live_indices_bound(cls.drop_last());
    }
}

/// A backend index is in the computed live set exactly when its probe was
/// classified healthy: the new set holds those indices and no others.
pub proof fn lemma_live_indices_exact(cls: Seq<ProbeClass>, i: int)
    requires
        cls.len() <= usize::MAX,
        0 <= i < cls.len(),
    ensures
        spec_live_indices(cls).contains(i as usize) <==> cls[i] is Healthy,
    decreases cls.len(),
{
    let pre = spec_live_indices(cls.drop_last());
    lemma_live_indices_bound(cls.drop_last());
    if i == cls.len() - 1 {
        if cls.last() is Healthy {
            let s = spec_live_indices(cls);
            assert(s[s.len() - 1] == i as usize);
            assert(s.contains(i as usize));
        } else {
            assert(spec_live_indices(cls) == pre);
            assert_by_contradiction!(!pre.contains(i as usize), {
                let j = choose|j: int| 0 <= j < pre.len() && pre[j] == i as usize;
                assert((pre[j] as nat) < cls.len() - 1);
            });
        }
    } else {
        lemma_live_indices_exact(cls.drop_last(), i);
        assert(cls.drop_last()[i] == cls[i]);
        if cls.last() is Healthy {
            let s = pre.push((cls.len() - 1) as usize);
            assert(spec_live_indices(cls) == s);
            if pre.contains(i as usize) {
                let j = choose|j: int| 0 <= j < pre.len() && pre[j] == i as usize;
                assert(s[j] == i as usize);
                assert(s.contains(i as usize));
            }
            if s.contains(i as usize) {
                let j = choose|j: int| 0 <= j < s.len() && s[j] == i as usize;
                if j < pre.len() {
                    assert(pre[j] == i as usize);
                    assert(pre.contains(i as usize));
                } else {
                    assert(s[j] == (cls.len() - 1) as usize);
                    assert(false);
                }
            }
        } else {
            assert(spec_live_indices(cls) == pre);
        }
    }
}

/// Builds the new live set from one cycle's classifications. Every index it
/// returns is within catalog bounds, so the registry accepts it.
pub fn compute_live_set(cls: &Vec<ProbeClass>) -> (r: Vec<usize>)
    ensures
        r@ == spec_live_indices(cls@),
        live_set_wf(r@, cls@.len()),
{
    let n = cls.len();
    let mut r: Vec<usize> = Vec::new();
    let mut i: usize = 0;
    while i < n
        invariant
            n == cls@.len(),
            i <= n,
            r@ == spec_live_indices(cls@.take(i as int)),
            live_set_wf(r@, i as nat),
        decreases n - i,
    {
        proof {
            assert(cls@.take(i as int + 1).drop_last() =~= cls@.take(i as int));
        }
        if cls[i] == ProbeClass::Healthy {
            r.push(i);
        }
        i = i + 1;
    }
    proof {
        assert(cls@.take(n as int) =~= cls@);
    }
    r
}

/// The monitor loop's state: it runs until the one-shot cancellation signal
/// arrives, then stops for good.
#[derive(Debug, Clone, Copy, PartialEq, Eq, Structural)]
pub enum MonitorState {
    Running,
    Stopped,
}

/// What ended one wait between probe cycles: the cancellation signal, or
/// the interval timer.
#[derive(Debug, Clone, Copy, PartialEq, Eq, Structural)]
pub enum MonitorEvent {
    Cancelled,
    IntervalElapsed,
}

/// The next thing the monitor's driver must do.
#[derive(Debug, Clone, Copy, PartialEq, Eq, Structural)]
pub enum MonitorAction {
    ProbeBatch,
    Exit,
}

/// After each replace, the monitor waits on a race between cancellation and
/// the interval; cancellation wins immediately and stops the loop, the
/// interval starts the next probe batch.
pub open spec fn spec_monitor_step(ev: MonitorEvent) -> (MonitorState, MonitorAction) {
    match ev {
        MonitorEvent::Cancelled => (MonitorState::Stopped, MonitorAction::Exit),
        MonitorEvent::IntervalElapsed => (MonitorState::Running, MonitorAction::ProbeBatch),
    }
}

pub fn monitor_step(ev: MonitorEvent) -> (r: (MonitorState, MonitorAction))
    ensures
        r == spec_monitor_step(ev),
{
    match ev {
        MonitorEvent::Cancelled => (MonitorState::Stopped, MonitorAction::Exit),
        MonitorEvent::IntervalElapsed => (MonitorState::Running, MonitorAction::ProbeBatch),
    }
}

/// Cancellation delivered between ticks stops the loop and never asks the
/// driver for another probe batch.
pub proof fn lemma_cancellation_stops_monitor()
    ensures
        spec_monitor_step(MonitorEvent::Cancelled).0 == MonitorState::Stopped,
        spec_monitor_step(MonitorEvent::Cancelled).1 != MonitorAction::ProbeBatch,
{
}

} // verus!
