//! The submit-then-poll protocol of the asynchronous embedding backend.
//!
//! A job is submitted once. An "accepted" answer carries a request identifier,
//! and the same identifier is polled, with a capped doubling delay between
//! polls, until the job resolves or the waiting budget is spent. The protocol
//! is a function from a state and a response to the next state; the caller
//! performs the exchanges.

use crate::error::{ClientError, ClientErrorView, ConfigurationFault};
use crate::http::{ACCEPTED, OK};
use crate::transport::{authorization, bearer, header, token_usable};
use crate::transport::{Header, HeaderView, HttpRequest, HttpRequestView, Method};
use vstd::prelude::*;
use vstd::string::*;

verus! {

/// Where jobs are submitted.
pub const INVOKE_URL: &'static str =
    "https://api.nvcf.nvidia.com/v2/nvcf/pexec/functions/091a03bb-7364-4087-8090-bd71e9277520";

/// The prefix of the address at which a job's status is polled.
pub const FETCH_URL_FORMAT: &'static str = "https://api.nvcf.nvidia.com/v2/nvcf/pexec/status/";

/// The header in which the service issues a job's request identifier.
pub const REQUEST_ID_HEADER: &'static str = "NVCF-REQID";

/// What is reported when an accepted submission names no job to poll.
pub const MISSING_REQUEST_ID: &'static str = "accepted response carries no request identifier";

/// How long and how often a job is polled.
#[derive(Debug, Clone, Copy, PartialEq, Eq)]
pub struct PollPolicy {
    initial_interval_ms: u64,
    max_interval_ms: u64,
    max_wait_ms: u64,
}

impl PollPolicy {
    /// The delay before the first poll, in milliseconds.
    pub closed spec fn initial_interval(self) -> u64 {
        self.initial_interval_ms
    }

    /// The cap on the delay between two polls, in milliseconds.
    pub closed spec fn max_interval(self) -> u64 {
        self.max_interval_ms
    }

    /// The total delay a job may accumulate, in milliseconds.
    pub closed spec fn max_wait(self) -> u64 {
        self.max_wait_ms
    }

    /// A policy never polls without delay, and its cap is no shorter than its
    /// first interval.
    #[verifier::type_invariant]
    pub open spec fn wf(self) -> bool {
        1 <= self.initial_interval() <= self.max_interval()
    }

    /// Whether three numbers make a policy.
    pub open spec fn acceptable(initial_interval_ms: u64, max_interval_ms: u64) -> bool {
        1 <= initial_interval_ms <= max_interval_ms
    }

    /// Makes a policy, or reports that the intervals do not fit together.
    pub fn new(initial_interval_ms: u64, max_interval_ms: u64, max_wait_ms: u64) -> (r: Result<
        PollPolicy,
        ClientError,
    >)
        ensures
            Self::acceptable(initial_interval_ms, max_interval_ms) ==> (r matches Ok(p)
                && p.initial_interval() == initial_interval_ms && p.max_interval()
                == max_interval_ms && p.max_wait() == max_wait_ms && p.wf()),
            !Self::acceptable(initial_interval_ms, max_interval_ms) ==> (r matches Err(e) && e@ == (
            ClientErrorView::Configuration { reason: ConfigurationFault::InvalidPolicy })),
    {
        if 1 <= initial_interval_ms && initial_interval_ms <= max_interval_ms {
            Ok(PollPolicy { initial_interval_ms, max_interval_ms, max_wait_ms })
        } else {
            Err(ClientError::Configuration { reason: ConfigurationFault::InvalidPolicy })
        }
    }

    /// The delay before the first poll, in milliseconds.
    pub fn initial_interval_ms(&self) -> (r: u64)
        ensures
            r == self.initial_interval(),
    {
        self.initial_interval_ms
    }

    /// The cap on the delay between two polls, in milliseconds.
    pub fn max_interval_ms(&self) -> (r: u64)
        ensures
            r == self.max_interval(),
    {
        self.max_interval_ms
    }

    /// The total delay a job may accumulate, in milliseconds.
    pub fn max_wait_ms(&self) -> (r: u64)
        ensures
            r == self.max_wait(),
    {
        self.max_wait_ms
    }
}

/// What the service answered to a submission or to a poll.
#[derive(Debug, Clone, PartialEq, Eq)]
pub struct JobResponse {
    pub status: u16,
    /// The request identifier header, if the response carries a readable one.
    pub request_id: Option<String>,
    pub body: String,
}

/// The mathematical content of a [`JobResponse`].
pub struct JobResponseView {
    pub status: u16,
    pub request_id: Option<Seq<char>>,
    pub body: Seq<char>,
}

impl View for JobResponse {
    type V = JobResponseView;

    open spec fn view(&self) -> JobResponseView {
        JobResponseView {
            status: self.status,
            request_id: match self.request_id {
                Some(id) => Some(id@),
                None => None,
            },
            body: self.body@,
        }
    }
}

/// The life of a job.
#[derive(Debug, Clone, PartialEq, Eq)]
pub enum JobState {
    /// Nothing has been answered yet.
    Submitted,
    /// The job is running. `polls` status polls have been answered so far,
    /// `waited_ms` is the delay scheduled up to and including the next poll,
    /// and `delay_ms` is the delay before the next poll.
    Processing { request_id: String, polls: u64, waited_ms: u64, delay_ms: u64 },
    /// The job finished; `payload` is the body of the final response.
    Succeeded { payload: String },
    /// The job failed, or polling was given up.
    Failed { error: ClientError },
}

/// The mathematical content of a [`JobState`].
pub enum JobStateView {
    Submitted,
    Processing { request_id: Seq<char>, polls: u64, waited_ms: u64, delay_ms: u64 },
    Succeeded { payload: Seq<char> },
    Failed { error: ClientErrorView },
}

impl View for JobState {
    type V = JobStateView;

    open spec fn view(&self) -> JobStateView {
        match *self {
            JobState::Submitted => JobStateView::Submitted,
            JobState::Processing { request_id, polls, waited_ms, delay_ms } => {
                JobStateView::Processing { request_id: request_id@, polls, waited_ms, delay_ms }
            },
            JobState::Succeeded { payload } => JobStateView::Succeeded { payload: payload@ },
            JobState::Failed { error } => JobStateView::Failed { error: error@ },
        }
    }
}

/// The exchange a state asks for.
#[derive(Debug, Clone, PartialEq, Eq)]
pub enum JobAction {
    /// Send the job to [`INVOKE_URL`].
    Submit,
    /// Wait `after_ms` milliseconds, then ask for the status of `request_id`.
    Poll { request_id: String, after_ms: u64 },
}

/// The mathematical content of a [`JobAction`].
pub enum JobActionView {
    Submit,
    Poll { request_id: Seq<char>, after_ms: u64 },
}

impl View for JobAction {
    type V = JobActionView;

    open spec fn view(&self) -> JobActionView {
        match *self {
            JobAction::Submit => JobActionView::Submit,
            JobAction::Poll { request_id, after_ms } => JobActionView::Poll {
                request_id: request_id@,
                after_ms,
            },
        }
    }
}

/// Whether a job has resolved.
pub open spec fn is_terminal(state: JobStateView) -> bool {
    state is Succeeded || state is Failed
}

/// The delay after `delay_ms`: twice as long, up to the policy's cap.
pub open spec fn next_delay(policy: PollPolicy, delay_ms: u64) -> u64 {
    if 2 * delay_ms <= policy.max_interval() {
        (2 * delay_ms) as u64
    } else {
        policy.max_interval()
    }
}

/// One more than `n`, unless `n` is the largest count.
pub open spec fn count_up(n: u64) -> u64 {
    if n < u64::MAX {
        (n + 1) as u64
    } else {
        n
    }
}

/// The state of a running job that has been answered `polls` times and is to
/// be polled again after `delay_ms`: it goes on if the waiting budget allows
/// the delay, and is given up otherwise.
pub open spec fn schedule(
    policy: PollPolicy,
    request_id: Seq<char>,
    polls: u64,
    waited_ms: u64,
    delay_ms: u64,
) -> JobStateView {
    if waited_ms + delay_ms <= policy.max_wait() {
        JobStateView::Processing {
            request_id,
            polls,
            waited_ms: (waited_ms + delay_ms) as u64,
            delay_ms,
        }
    } else {
        JobStateView::Failed { error: ClientErrorView::PollTimeout { waited_ms, polls } }
    }
}

/// The transition function of the protocol.
pub open spec fn step_spec(
    policy: PollPolicy,
    state: JobStateView,
    response: JobResponseView,
) -> JobStateView {
    match state {
        JobStateView::Submitted => {
            if response.status == OK {
                JobStateView::Succeeded { payload: response.body }
            } else if response.status == ACCEPTED {
                match response.request_id {
                    Some(id) => schedule(policy, id, 0, 0, policy.initial_interval()),
                    None => JobStateView::Failed {
                        error: ClientErrorView::Transport { detail: MISSING_REQUEST_ID@ },
                    },
                }
            } else {
                JobStateView::Failed {
                    error: ClientErrorView::Remote {
                        status: response.status,
                        detail: response.body,
                    },
                }
            }
        },
        JobStateView::Processing { request_id, polls, waited_ms, delay_ms } => {
            if response.status == OK {
                JobStateView::Succeeded { payload: response.body }
            } else if response.status == ACCEPTED {
                schedule(
                    policy,
                    request_id,
                    count_up(polls),
                    waited_ms,
                    next_delay(policy, delay_ms),
                )
            } else {
                JobStateView::Failed {
                    error: ClientErrorView::Remote {
                        status: response.status,
                        detail: response.body,
                    },
                }
            }
        },
        JobStateView::Succeeded { payload } => state,
        JobStateView::Failed { error } => state,
    }
}

/// The exchange that `state` asks for; none once the job has resolved.
pub open spec fn action_of(state: JobStateView) -> Option<JobActionView> {
    match state {
        JobStateView::Submitted => Some(JobActionView::Submit),
        JobStateView::Processing { request_id, polls, waited_ms, delay_ms } => Some(
            JobActionView::Poll { request_id, after_ms: delay_ms },
        ),
        JobStateView::Succeeded { payload } => None,
        JobStateView::Failed { error } => None,
    }
}

/// The headers of a job submission.
pub open spec fn submit_headers(token: Seq<char>) -> Seq<HeaderView> {
    seq![
        HeaderView { name: "Authorization"@, value: bearer(token) },
        HeaderView { name: "Accept"@, value: "application/json"@ },
        HeaderView { name: "Content-Type"@, value: "application/json"@ },
    ]
}

/// The headers of a status poll.
pub open spec fn poll_headers(token: Seq<char>) -> Seq<HeaderView> {
    seq![
        HeaderView { name: "Authorization"@, value: bearer(token) },
        HeaderView { name: "Accept"@, value: "application/json"@ },
    ]
}

/// Builds the request that submits a job.
pub fn submit_request(token: &str) -> (r: Result<HttpRequest, ClientError>)
    ensures
        token_usable(token@) ==> (r matches Ok(req) && req@ == (HttpRequestView {
            method: Method::Post,
            url: INVOKE_URL@,
            headers: submit_headers(token@),
        })),
        !token_usable(token@) ==> (r matches Err(e) && e@ == (ClientErrorView::Configuration {
            reason: ConfigurationFault::UnusableToken,
        })),
{
    match authorization(token) {
        Ok(auth) => {
            let mut headers: Vec<Header> = Vec::new();
            headers.push(auth);
            headers.push(header("Accept", "application/json"));
            headers.push(header("Content-Type", "application/json"));
            let req = HttpRequest {
                method: Method::Post,
                url: String::from_str(INVOKE_URL),
                headers,
            };
            assert(req@.headers =~= submit_headers(token@));
            Ok(req)
        },
        Err(e) => Err(e),
    }
}

/// Builds the request that asks for the status of the job `request_id`.
pub fn poll_request(request_id: &str, token: &str) -> (r: Result<HttpRequest, ClientError>)
    ensures
        token_usable(token@) ==> (r matches Ok(req) && req@ == (HttpRequestView {
            method: Method::Get,
            url: FETCH_URL_FORMAT@ + request_id@,
            headers: poll_headers(token@),
        })),
        !token_usable(token@) ==> (r matches Err(e) && e@ == (ClientErrorView::Configuration {
            reason: ConfigurationFault::UnusableToken,
        })),
{
    match authorization(token) {
        Ok(auth) => {
            let mut headers: Vec<Header> = Vec::new();
            headers.push(auth);
            headers.push(header("Accept", "application/json"));
            let req = HttpRequest { method: Method::Get, url: poll_url(request_id), headers };
            assert(req@.headers =~= poll_headers(token@));
            Ok(req)
        },
        Err(e) => Err(e),
    }
}

/// The address at which the status of `request_id` is polled.
pub fn poll_url(request_id: &str) -> (url: String)
    ensures
        url@ == FETCH_URL_FORMAT@ + request_id@,
{
    let mut url = String::from_str(FETCH_URL_FORMAT);
    url.append(request_id);
    url
}

fn schedule_poll(
    policy: &PollPolicy,
    request_id: String,
    polls: u64,
    waited_ms: u64,
    delay_ms: u64,
) -> (next: JobState)
    ensures
        next@ == schedule(*policy, request_id@, polls, waited_ms, delay_ms),
{
    match waited_ms.checked_add(delay_ms) {
        Some(total) => {
            if total <= policy.max_wait_ms() {
                JobState::Processing { request_id, polls, waited_ms: total, delay_ms }
            } else {
                JobState::Failed { error: ClientError::PollTimeout { waited_ms, polls } }
            }
        },
        None => JobState::Failed { error: ClientError::PollTimeout { waited_ms, polls } },
    }
}

fn remote_failure(response: JobResponse) -> (next: JobState)
    ensures
        next@ == (JobStateView::Failed {
            error: ClientErrorView::Remote { status: response.status, detail: response.body@ },
        }),
{
    JobState::Failed { error: ClientError::Remote { status: response.status, detail: response.body } }
}

/// Takes the job from `state` to its next state on `response`.
pub fn step(policy: &PollPolicy, state: JobState, response: JobResponse) -> (next: JobState)
    ensures
        next@ == step_spec(*policy, state@, response@),
{
    match state {
        JobState::Submitted => {
            if response.status == OK {
                JobState::Succeeded { payload: response.body }
            } else if response.status == ACCEPTED {
                match response.request_id {
                    Some(id) => schedule_poll(policy, id, 0, 0, policy.initial_interval_ms()),
                    None => JobState::Failed {
                        error: ClientError::Transport {
                            detail: String::from_str(MISSING_REQUEST_ID),
                        },
                    },
                }
            } else {
                remote_failure(response)
            }
        },
        JobState::Processing { request_id, polls, waited_ms, delay_ms } => {
            if response.status == OK {
                JobState::Succeeded { payload: response.body }
            } else if response.status == ACCEPTED {
                let max: u64 = policy.max_interval_ms();
                let delay: u64 = if delay_ms <= max / 2 {
                    2 * delay_ms
                } else {
                    max
                };
                let answered: u64 = if polls < u64::MAX {
                    polls + 1
                } else {
                    polls
                };
                schedule_poll(policy, request_id, answered, waited_ms, delay)
            } else {
                remote_failure(response)
            }
        },
        JobState::Succeeded { payload } => JobState::Succeeded { payload },
        JobState::Failed { error } => JobState::Failed { error },
    }
}

/// The exchange to perform next, or `None` once the job has resolved.
pub fn next_action(state: &JobState) -> (action: Option<JobAction>)
    ensures
        match action_of(state@) {
            Some(a) => action matches Some(b) && b@ == a,
            None => action is None,
        },
{
    match state {
        JobState::Submitted => Some(JobAction::Submit),
        JobState::Processing { request_id, polls, waited_ms, delay_ms } => Some(
            JobAction::Poll { request_id: request_id.clone(), after_ms: *delay_ms },
        ),
        JobState::Succeeded { payload } => None,
        JobState::Failed { error } => None,
    }
}

/// What a resolved job yields: its payload or its error. `None` while the job
/// has not resolved.
pub fn outcome(state: JobState) -> (r: Option<Result<String, ClientError>>)
    ensures
        match state@ {
            JobStateView::Succeeded { payload } => r matches Some(Ok(p)) && p@ == payload,
            JobStateView::Failed { error } => r matches Some(Err(e)) && e@ == error,
            _ => r is None,
        },
{
    match state {
        JobState::Succeeded { payload } => Some(Ok(payload)),
        JobState::Failed { error } => Some(Err(error)),
        _ => None,
    }
}

/// A job driven over a fixed list of responses: where it ended, and the
/// exchanges that were performed on the way.
#[derive(Debug, Clone, PartialEq, Eq)]
pub struct JobRun {
    pub state: JobState,
    pub actions: Vec<JobAction>,
}

/// The responses of a script, each by its view.
pub open spec fn responses_view(responses: Seq<JobResponse>) -> Seq<JobResponseView> {
    responses.map_values(|r: JobResponse| r@)
}

/// The actions of a run, each by its view.
pub open spec fn actions_view(actions: Seq<JobAction>) -> Seq<JobActionView> {
    actions.map_values(|a: JobAction| a@)
}

/// The state a job reaches from `state` when its exchanges are answered by
/// `responses`, in order.
pub open spec fn run_from(
    policy: PollPolicy,
    state: JobStateView,
    responses: Seq<JobResponseView>,
) -> JobStateView
    decreases responses.len(),
{
    if responses.len() == 0 {
        state
    } else {
        run_from(policy, step_spec(policy, state, responses[0]), responses.drop_first())
    }
}

/// The exchanges a job performs from `state` when they are answered by
/// `responses`, in order. An exchange is performed only while the job has not
/// resolved and a response is left to answer it.
pub open spec fn actions_from(
    policy: PollPolicy,
    state: JobStateView,
    responses: Seq<JobResponseView>,
) -> Seq<JobActionView>
    decreases responses.len(),
{
    if responses.len() == 0 {
        Seq::empty()
    } else {
        match action_of(state) {
            None => Seq::empty(),
            Some(a) => seq![a] + actions_from(
                policy,
                step_spec(policy, state, responses[0]),
                responses.drop_first(),
            ),
        }
    }
}

/// A resolved job stays as it is and asks for no further exchange.
pub proof fn law_resolved_jobs_stay_resolved(
    policy: PollPolicy,
    state: JobStateView,
    responses: Seq<JobResponseView>,
)
    requires
        is_terminal(state),
    ensures
        run_from(policy, state, responses) == state,
        actions_from(policy, state, responses) == Seq::<JobActionView>::empty(),
    decreases responses.len(),
{
    if responses.len() > 0 {
        law_resolved_jobs_stay_resolved(policy, state, responses.drop_first());
    }
}

fn copy_response(response: &JobResponse) -> (copy: JobResponse)
    ensures
        copy@ == response@,
{
    let request_id = match &response.request_id {
        Some(id) => Some(id.clone()),
        None => None,
    };
    JobResponse { status: response.status, request_id, body: response.body.clone() }
}

/// Drives a job from submission over `responses`: the first answers the
/// submission, each further one answers a poll. The run ends when the job
/// resolves or the responses run out.
pub fn run_scripted(policy: &PollPolicy, responses: &Vec<JobResponse>) -> (run: JobRun)
    ensures
        run.state@ == run_from(*policy, JobStateView::Submitted, responses_view(responses@)),
        actions_view(run.actions@) == actions_from(
            *policy,
            JobStateView::Submitted,
            responses_view(responses@),
        ),
{
    let ghost all = responses_view(responses@);
    let mut state = JobState::Submitted;
    let mut actions: Vec<JobAction> = Vec::new();
    let mut live = true;
    let mut i: usize = 0;
    assert(all.skip(0) =~= all);
    assert(actions_view(actions@) + actions_from(*policy, state@, all) =~= actions_from(
        *policy,
        state@,
        all,
    ));
    while live && i < responses.len()
        invariant
            i <= responses.len(),
            all == responses_view(responses@),
            !live ==> is_terminal(state@),
            run_from(*policy, state@, all.skip(i as int)) == run_from(
                *policy,
                JobStateView::Submitted,
                all,
            ),
            actions_view(actions@) + actions_from(*policy, state@, all.skip(i as int))
                == actions_from(*policy, JobStateView::Submitted, all),
        decreases (if live { 1int } else { 0int }), responses.len() - i,
    {
        let ghost before = state@;
        let ghost done = actions_view(actions@);
        let ghost rest = all.skip(i as int);
        assert(rest.len() > 0);
        assert(rest[0] == responses@[i as int]@);
        assert(rest.drop_first() =~= all.skip(i + 1));
        match next_action(&state) {
            None => {
                live = false;
            },
            Some(action) => {
                let ghost a = action@;
                actions.push(action);
                state = step(policy, state, copy_response(&responses[i]));
                i += 1;
                proof {
                    let tail = actions_from(*policy, state@, all.skip(i as int));
                    assert(actions_view(actions@) =~= done + seq![a]);
                    assert(actions_from(*policy, before, rest) == seq![a] + tail);
                    assert((done + seq![a]) + tail =~= done + (seq![a] + tail));
                }
            },
        }
    }
    proof {
        if live {
            assert(all.skip(i as int).len() == 0);
        } else {
            law_resolved_jobs_stay_resolved(*policy, state@, all.skip(i as int));
        }
        assert(actions_view(actions@) + Seq::<JobActionView>::empty() =~= actions_view(
            actions@,
        ));
    }
    JobRun { state, actions }
}

} // verus!
