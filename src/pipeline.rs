//! Fetch execution pipeline: from a leased job to an archived execution
//! record and, for a repeating definition, the next job of its chain.
use vstd::prelude::*;

use crate::model::ApiMethod;
use crate::queue::{enqueue_outcome, JobQueue, QueueError};
use crate::schedule::{next_run, next_run_at, next_run_defined, ExecuteType};

verus! {

/// Whether serde_json accepts a text as a JSON document.
pub uninterp spec fn parses_as_json(text: Seq<char>) -> bool;

/// serde_json's indented rendering of the JSON document a text holds.
pub uninterp spec fn pretty_of(text: Seq<char>) -> Seq<char>;

/// Relies on `serde_json::from_str::<Value>`, which accepts a text as a JSON
/// document (within its nesting limit) depending on the text alone, and on
/// `serde_json::to_string_pretty`, which renders the parsed value indented.
/// Rendering a `Value` cannot fail: its maps have string keys only and the
/// output goes to a `Vec`.
#[verifier::external_body]
fn render_json(text: &str) -> (r: Option<String>)
    ensures
        r is Some == parses_as_json(text@),
        r is Some ==> r->Some_0@ == pretty_of(text@),
{
    match serde_json::from_str::<serde_json::Value>(text) {
        Ok(v) => serde_json::to_string_pretty(&v).ok(),
        Err(_) => None,
    }
}

/// The character of a decimal digit.
pub open spec fn digit_char(d: nat) -> char {
    if d == 0 {
        '0'
    } else if d == 1 {
        '1'
    } else if d == 2 {
        '2'
    } else if d == 3 {
        '3'
    } else if d == 4 {
        '4'
    } else if d == 5 {
        '5'
    } else if d == 6 {
        '6'
    } else if d == 7 {
        '7'
    } else if d == 8 {
        '8'
    } else {
        '9'
    }
}

/// Decimal digits of `n`, most significant first, without leading zeros.
pub open spec fn digits(n: nat) -> Seq<char>
    decreases n,
{
    if n < 10 {
        seq![digit_char(n)]
    } else {
        digits(n / 10).push(digit_char(n % 10))
    }
}

/// Decimal text of an integer, with a leading `-` when negative.
pub open spec fn decimal_text(n: int) -> Seq<char> {
    if n < 0 {
        seq!['-'] + digits((-n) as nat)
    } else {
        digits(n as nat)
    }
}

/// The one-character text of a decimal digit.
fn digit_str(d: u128) -> (r: &'static str)
    requires
        d < 10,
    ensures
        r@ == seq![digit_char(d as nat)],
{
    proof {
        reveal_strlit("0");
        reveal_strlit("1");
        reveal_strlit("2");
        reveal_strlit("3");
        reveal_strlit("4");
        reveal_strlit("5");
        reveal_strlit("6");
        reveal_strlit("7");
        reveal_strlit("8");
        reveal_strlit("9");
        assert("0"@ =~= seq!['0']);
        assert("1"@ =~= seq!['1']);
        assert("2"@ =~= seq!['2']);
        assert("3"@ =~= seq!['3']);
        assert("4"@ =~= seq!['4']);
        assert("5"@ =~= seq!['5']);
        assert("6"@ =~= seq!['6']);
        assert("7"@ =~= seq!['7']);
        assert("8"@ =~= seq!['8']);
        assert("9"@ =~= seq!['9']);
    }
    if d == 0 {
        "0"
    } else if d == 1 {
        "1"
    } else if d == 2 {
        "2"
    } else if d == 3 {
        "3"
    } else if d == 4 {
        "4"
    } else if d == 5 {
        "5"
    } else if d == 6 {
        "6"
    } else if d == 7 {
        "7"
    } else if d == 8 {
        "8"
    } else {
        "9"
    }
}

/// Appends the decimal digits of `n` to `s`.
fn append_digits(s: &mut String, n: u128)
    ensures
        final(s)@ == old(s)@ + digits(n as nat),
    decreases n,
{
    if n >= 10 {
        append_digits(s, n / 10);
    }
    s.append(digit_str(n % 10));
    proof {
        if n >= 10 {
            assert(digits(n as nat) == digits((n / 10) as nat).push(digit_char((n % 10) as nat)));
        }
        assert(s@ =~= old(s)@ + digits(n as nat));
    }
}

/// Decimal text of `n`.
fn decimal(n: i128) -> (r: String)
    ensures
        r@ == decimal_text(n as int),
{
    let mut s = String::new();
    if n < 0 {
        proof {
            reveal_strlit("-");
            assert("-"@ =~= seq!['-']);
        }
        s.append("-");
        let m: u128 = (-(n + 1)) as u128 + 1;
        append_digits(&mut s, m);
        assert(s@ =~= decimal_text(n as int));
    } else {
        append_digits(&mut s, n as u128);
        assert(s@ =~= decimal_text(n as int));
    }
    s
}

/// A stored fetch definition, as the pipeline reads it.
pub struct FetchDefinition {
    pub id: i32,
    pub name: String,
    pub endpoint: String,
    pub method: Option<ApiMethod>,
    pub header_id: Option<i32>,
    pub payload: Option<String>,
    pub execute_id: i32,
    /// The queue entry that will next execute this definition.
    pub current_job: Option<u64>,
    pub is_active: bool,
}

/// A named set of request headers, name and value.
pub struct HeaderSet {
    pub id: i32,
    pub headers: Vec<(String, String)>,
}

/// Schedule policy of a definition: whether it repeats, and every how many units.
pub struct ScheduleSpec {
    pub is_repeat: bool,
    pub unit: Option<ExecuteType>,
    pub value: i64,
}

/// The HTTP call to make.
pub struct OutboundRequest {
    pub method: ApiMethod,
    pub url: String,
    pub headers: Vec<(String, String)>,
    pub body: Option<String>,
}

/// What came back from the HTTP call.
pub struct HttpResponse {
    pub status: u16,
    pub headers: Vec<(String, String)>,
    pub body: String,
}

/// The archived outcome of one execution.
pub struct ExecutionRecord {
    pub fetch_id: i32,
    pub name: String,
    pub status_code: u16,
    pub response: String,
    pub response_headers: Vec<(String, String)>,
    pub created_at: i64,
}

/// Why an execution did not complete.
#[derive(Clone, Copy, Debug, PartialEq, Eq, Structural)]
pub enum PipelineError {
    /// The definition is gone; retrying cannot help.
    NotFound,
    /// The HTTP call failed below the HTTP level.
    Transport,
    /// The record could not be stored.
    Storage,
    /// The execution was archived but its follow-up job was not scheduled.
    Reschedule,
}

/// The verb used for a definition's declared method.
pub open spec fn method_for(m: Option<ApiMethod>) -> ApiMethod {
    match m {
        Some(v) => v,
        None => ApiMethod::Get,
    }
}

/// Headers sent for a definition, given what the header lookup found.
/// A failed lookup sends no custom header.
pub open spec fn headers_for(def: FetchDefinition, found: Option<HeaderSet>) -> Seq<(String, String)> {
    match (def.header_id, found) {
        (Some(_), Some(hs)) => hs.headers@,
        _ => Seq::empty(),
    }
}

/// Body sent for a payload: only a non-empty one.
pub open spec fn body_for(payload: Option<String>) -> Option<String> {
    match payload {
        Some(p) => if p@.len() > 0 {
            Some(p)
        } else {
            None
        },
        None => None,
    }
}

/// The request for a definition.
pub open spec fn is_request_for(r: OutboundRequest, def: FetchDefinition, found: Option<HeaderSet>) -> bool {
    &&& r.method == method_for(def.method)
    &&& r.url == def.endpoint
    &&& r.headers@ == headers_for(def, found)
    &&& r.body == body_for(def.payload)
}

/// Name of an execution record: definition name, then its id and its current
/// job id (`unknown` when it has none) in brackets.
pub open spec fn record_name_text(def: FetchDefinition) -> Seq<char> {
    def.name@ + " ["@ + decimal_text(def.id as int) + "-"@ + match def.current_job {
        Some(j) => decimal_text(j as int),
        None => "unknown"@,
    } + "]"@
}

/// The verb for a declared method; `GET` when none is declared.
pub fn resolve_method(m: Option<ApiMethod>) -> (r: ApiMethod)
    ensures
        r == method_for(m),
{
    match m {
        Some(v) => v,
        None => ApiMethod::Get,
    }
}

/// The HTTP request for `def`, with the header set that the lookup of
/// `def.header_id` found, if any.
pub fn build_request(def: &FetchDefinition, found: Option<HeaderSet>) -> (r: OutboundRequest)
    ensures
        is_request_for(r, *def, found),
{
    let headers = match (def.header_id, found) {
        (Some(_), Some(hs)) => hs.headers,
        _ => Vec::new(),
    };
    let body = match &def.payload {
        Some(p) => if p.as_str().is_empty() {
            None
        } else {
            Some(p.clone())
        },
        None => None,
    };
    OutboundRequest { method: resolve_method(def.method), url: def.endpoint.clone(), headers, body }
}

/// The response body to archive: a JSON body re-rendered indented, any other
/// text unchanged.
pub open spec fn archived_body(text: Seq<char>) -> Seq<char> {
    if parses_as_json(text) {
        pretty_of(text)
    } else {
        text
    }
}

/// The response body to archive: a JSON body re-rendered indented, any other
/// text unchanged.
pub fn capture_body(text: String) -> (r: String)
    ensures
        r@ == archived_body(text@),
        !parses_as_json(text@) ==> r == text,
{
    match render_json(text.as_str()) {
        Some(p) => p,
        None => text,
    }
}

/// The name an execution record of `def` is archived under.
pub fn record_name(def: &FetchDefinition) -> (r: String)
    ensures
        r@ == record_name_text(*def),
{
    let mut s = def.name.clone();
    s.append(" [");
    let id = decimal(def.id as i128);
    s.append(id.as_str());
    s.append("-");
    match def.current_job {
        Some(j) => {
            let jt = decimal(j as i128);
            s.append(jt.as_str());
        },
        None => {
            s.append("unknown");
        },
    }
    s.append("]");
    s
}

/// The record archived for a response to `def` received at `now`; whatever
/// the status, the response is data.
pub open spec fn is_record_for(rec: ExecutionRecord, def: FetchDefinition, resp: HttpResponse, now: int) -> bool {
    &&& rec.fetch_id == def.id
    &&& rec.name@ == record_name_text(def)
    &&& rec.status_code == resp.status
    &&& rec.response@ == archived_body(resp.body@)
    &&& rec.response_headers@ == resp.headers@
    &&& rec.created_at == now
}

/// The record archived for a response to `def` received at `now`.
pub fn build_record(def: &FetchDefinition, resp: HttpResponse, now: i64) -> (rec: ExecutionRecord)
    ensures
        is_record_for(rec, *def, resp, now as int),
        !parses_as_json(resp.body@) ==> rec.response == resp.body,
{
    ExecutionRecord {
        fetch_id: def.id,
        name: record_name(def),
        status_code: resp.status,
        response: capture_body(resp.body),
        response_headers: resp.headers,
        created_at: now,
    }
}

/// When the follow-up of a run completed at `now` is due under `policy`:
/// `None` when the policy names no unit or the time cannot be represented.
pub open spec fn follow_up_at(policy: ScheduleSpec, now: int) -> Option<int> {
    match policy.unit {
        Some(u) => if next_run_defined(now, u, policy.value as int) {
            Some(next_run_at(now, u, policy.value as int))
        } else {
            None
        },
        None => None,
    }
}

/// Outcome of `reschedule`: queue contents and definition before (`q`, `d`)
/// and after (`q2`, `d2`).
pub open spec fn reschedule_outcome(
    q: Seq<crate::queue::JobEntry>,
    d: FetchDefinition,
    policy: ScheduleSpec,
    now: int,
    q2: Seq<crate::queue::JobEntry>,
    d2: FetchDefinition,
    r: Result<Option<u64>, PipelineError>,
) -> bool {
    if !policy.is_repeat {
        r == Ok::<Option<u64>, PipelineError>(None) && q2 == q && d2 == d
    } else {
        match follow_up_at(policy, now) {
            None => r == Err::<Option<u64>, PipelineError>(PipelineError::Reschedule) && q2 == q && d2 == d,
            Some(at) => if q.len() < u64::MAX {
                &&& enqueue_outcome(q, d.id, at as i64, q2, Ok::<u64, QueueError>(q.len() as u64))
                &&& r == Ok::<Option<u64>, PipelineError>(Some(q.len() as u64))
                &&& d2 == FetchDefinition { current_job: Some(q.len() as u64), ..d }
            } else {
                r == Err::<Option<u64>, PipelineError>(PipelineError::Reschedule) && q2 == q && d2 == d
            },
        }
    }
}

/// After a run of `def` completed at `now`: for a repeating policy, enqueue
/// the next job of the chain and point `def.current_job` at it; returns its
/// id. A non-repeating policy changes nothing.
pub fn reschedule(queue: &mut JobQueue, def: &mut FetchDefinition, policy: &ScheduleSpec, now: i64) -> (r: Result<
    Option<u64>,
    PipelineError,
>)
    requires
        old(queue).wf(),
    ensures
        final(queue).wf(),
        reschedule_outcome(old(queue)@, *old(def), *policy, now as int, final(queue)@, *final(def), r),
{
    if !policy.is_repeat {
        return Ok(None);
    }
    let at = match policy.unit {
        Some(u) => match next_run(now, u, policy.value) {
            Some(t) => t,
            None => {
                return Err(PipelineError::Reschedule);
            },
        },
        None => {
            return Err(PipelineError::Reschedule);
        },
    };
    match queue.enqueue(def.id, at) {
        Ok(id) => {
            def.current_job = Some(id);
            Ok(Some(id))
        },
        Err(_) => Err(PipelineError::Reschedule),
    }
}

/// Repeat chain: after a repeating definition's run is rescheduled, the queue
/// holds exactly one new entry, pending, for that definition, due at the
/// follow-up time of the completion instant, every earlier entry is
/// unchanged, and the definition's current job points at the new entry.
/// A non-repeating definition gets no new entry and keeps its current job.
pub proof fn lemma_repeat_chain(
    q: Seq<crate::queue::JobEntry>,
    d: FetchDefinition,
    policy: ScheduleSpec,
    now: int,
    q2: Seq<crate::queue::JobEntry>,
    d2: FetchDefinition,
    r: Result<Option<u64>, PipelineError>,
)
    requires
        reschedule_outcome(q, d, policy, now, q2, d2, r),
    ensures
        policy.is_repeat && r is Ok ==> {
            let u = policy.unit->Some_0;
            &&& policy.unit is Some
            &&& q2.len() == q.len() + 1
            &&& q2.subrange(0, q.len() as int) == q
            &&& q2[q.len() as int].status == crate::queue::JobStatus::Pending
            &&& q2[q.len() as int].fetch_id == d.id
            &&& q2[q.len() as int].run_at == next_run_at(now, u, policy.value as int)
            &&& q2[q.len() as int].run_at - now == policy.value * crate::schedule::unit_seconds(u)
            &&& q2[q.len() as int].attempts == 0
            &&& d2.current_job == Some(q.len() as u64)
            &&& q2[d2.current_job->Some_0 as int].id == d2.current_job->Some_0
        },
        !policy.is_repeat ==> q2 == q && d2.current_job == d.current_job && r == Ok::<Option<u64>, PipelineError>(None),
{
    if policy.is_repeat && r is Ok {
        assert(q2.subrange(0, q.len() as int) =~= q);
    }
}

} // verus!
