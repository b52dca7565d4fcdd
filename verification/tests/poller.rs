use nemollm::error::{ClientError, ConfigurationFault};
use nemollm::poller::{
    next_action, outcome, poll_request, poll_url, run_scripted, step, submit_request, JobAction,
    JobResponse, JobState, PollPolicy, FETCH_URL_FORMAT, INVOKE_URL, MISSING_REQUEST_ID,
};
use nemollm::transport::Method;

fn accepted(id: Option<&str>) -> JobResponse {
    JobResponse { status: 202, request_id: id.map(|s| s.to_string()), body: String::new() }
}

fn answer(status: u16, body: &str) -> JobResponse {
    JobResponse { status, request_id: None, body: body.to_string() }
}

fn policy() -> PollPolicy {
    PollPolicy::new(100, 1_000, 10_000).unwrap()
}

#[test]
fn two_accepted_then_success_is_one_submission_and_two_polls() {
    let script = vec![accepted(Some("job-7")), accepted(None), answer(200, "{\"data\":[]}")];
    let run = run_scripted(&policy(), &script);
    assert_eq!(run.state, JobState::Succeeded { payload: "{\"data\":[]}".to_string() });
    assert_eq!(
        run.actions,
        vec![
            JobAction::Submit,
            JobAction::Poll { request_id: "job-7".to_string(), after_ms: 100 },
            JobAction::Poll { request_id: "job-7".to_string(), after_ms: 200 },
        ]
    );
    let submissions = run.actions.iter().filter(|a| **a == JobAction::Submit).count();
    assert_eq!(submissions, 1);
    assert_eq!(run.actions.len() - submissions, 2);
}

#[test]
fn accepted_then_server_error_fails_after_one_poll() {
    let script = vec![accepted(Some("job-7")), answer(500, "backend exploded")];
    let run = run_scripted(&policy(), &script);
    assert_eq!(
        run.state,
        JobState::Failed {
            error: ClientError::Remote { status: 500, detail: "backend exploded".to_string() }
        }
    );
    assert_eq!(
        run.actions,
        vec![JobAction::Submit, JobAction::Poll { request_id: "job-7".to_string(), after_ms: 100 }]
    );
}

#[test]
fn immediate_success_is_never_polled() {
    let script = vec![answer(200, "payload"), accepted(Some("late")), answer(500, "late")];
    let run = run_scripted(&policy(), &script);
    assert_eq!(run.state, JobState::Succeeded { payload: "payload".to_string() });
    assert_eq!(run.actions, vec![JobAction::Submit]);
}

#[test]
fn submission_failure_is_reported_with_status_and_body() {
    let run = run_scripted(&policy(), &vec![answer(401, "no")]);
    assert_eq!(
        run.state,
        JobState::Failed { error: ClientError::Remote { status: 401, detail: "no".to_string() } }
    );
    assert_eq!(run.actions, vec![JobAction::Submit]);
}

#[test]
fn a_created_answer_is_not_the_payload() {
    let run = run_scripted(&policy(), &vec![answer(201, "almost")]);
    assert_eq!(
        run.state,
        JobState::Failed {
            error: ClientError::Remote { status: 201, detail: "almost".to_string() }
        }
    );
}

#[test]
fn accepted_without_identifier_is_malformed() {
    let run = run_scripted(&policy(), &vec![accepted(None), answer(200, "x")]);
    assert_eq!(
        run.state,
        JobState::Failed { error: ClientError::Transport { detail: MISSING_REQUEST_ID.to_string() } }
    );
    assert_eq!(run.actions, vec![JobAction::Submit]);
}

#[test]
fn empty_script_leaves_the_job_submitted() {
    let run = run_scripted(&policy(), &vec![]);
    assert_eq!(run.state, JobState::Submitted);
    assert!(run.actions.is_empty());
}

#[test]
fn script_that_runs_out_leaves_the_job_processing() {
    let run = run_scripted(&policy(), &vec![accepted(Some("j")), accepted(None)]);
    assert_eq!(
        run.state,
        JobState::Processing { request_id: "j".to_string(), polls: 1, waited_ms: 300, delay_ms: 200 }
    );
    assert_eq!(run.actions.len(), 2);
}

#[test]
fn delays_double_up_to_the_cap() {
    let p = PollPolicy::new(100, 350, 100_000).unwrap();
    let script: Vec<JobResponse> =
        std::iter::once(accepted(Some("j"))).chain((0..4).map(|_| accepted(None))).collect();
    let run = run_scripted(&p, &script);
    let delays: Vec<u64> = run
        .actions
        .iter()
        .filter_map(|a| match a {
            JobAction::Poll { after_ms, .. } => Some(*after_ms),
            JobAction::Submit => None,
        })
        .collect();
    assert_eq!(delays, vec![100, 200, 350, 350]);
    assert_eq!(
        run.state,
        JobState::Processing { request_id: "j".to_string(), polls: 4, waited_ms: 1_350, delay_ms: 350 }
    );
}

#[test]
fn polling_is_given_up_when_the_budget_is_spent() {
    // Delays 100, 200, 400: the third no longer fits a budget of 500.
    let p = PollPolicy::new(100, 1_000, 500).unwrap();
    let script = vec![accepted(Some("j")), accepted(None), accepted(None), answer(200, "late")];
    let run = run_scripted(&p, &script);
    assert_eq!(
        run.state,
        JobState::Failed { error: ClientError::PollTimeout { waited_ms: 300, polls: 2 } }
    );
    assert_eq!(run.actions.len(), 3);
}

#[test]
fn first_delay_beyond_budget_times_out_at_once() {
    let p = PollPolicy::new(100, 1_000, 50).unwrap();
    let run = run_scripted(&p, &vec![accepted(Some("j")), answer(200, "late")]);
    assert_eq!(
        run.state,
        JobState::Failed { error: ClientError::PollTimeout { waited_ms: 0, polls: 0 } }
    );
    assert_eq!(run.actions, vec![JobAction::Submit]);
}

#[test]
fn huge_waiting_never_overflows() {
    let p = PollPolicy::new(u64::MAX, u64::MAX, u64::MAX).unwrap();
    let s1 = step(&p, JobState::Submitted, accepted(Some("j")));
    assert_eq!(
        s1,
        JobState::Processing {
            request_id: "j".to_string(),
            polls: 0,
            waited_ms: u64::MAX,
            delay_ms: u64::MAX
        }
    );
    let s2 = step(&p, s1, accepted(None));
    assert_eq!(
        s2,
        JobState::Failed { error: ClientError::PollTimeout { waited_ms: u64::MAX, polls: 1 } }
    );
}

#[test]
fn resolved_jobs_ignore_further_answers() {
    let done = JobState::Succeeded { payload: "p".to_string() };
    assert_eq!(step(&policy(), done.clone(), answer(500, "x")), done);
    let failed = JobState::Failed { error: ClientError::PollTimeout { waited_ms: 1, polls: 1 } };
    assert_eq!(step(&policy(), failed.clone(), answer(200, "x")), failed);
    assert_eq!(next_action(&done), None);
    assert_eq!(next_action(&failed), None);
}

#[test]
fn next_action_follows_the_state() {
    assert_eq!(next_action(&JobState::Submitted), Some(JobAction::Submit));
    let running =
        JobState::Processing { request_id: "r".to_string(), polls: 3, waited_ms: 700, delay_ms: 400 };
    assert_eq!(
        next_action(&running),
        Some(JobAction::Poll { request_id: "r".to_string(), after_ms: 400 })
    );
}

#[test]
fn outcome_is_known_only_once_resolved() {
    assert_eq!(outcome(JobState::Submitted), None);
    assert_eq!(outcome(JobState::Succeeded { payload: "p".to_string() }), Some(Ok("p".to_string())));
    let e = ClientError::Remote { status: 503, detail: "busy".to_string() };
    assert_eq!(outcome(JobState::Failed { error: e.clone() }), Some(Err(e)));
}

#[test]
fn policy_needs_a_positive_interval_and_a_cap_above_it() {
    let bad = ClientError::Configuration { reason: ConfigurationFault::InvalidPolicy };
    assert_eq!(PollPolicy::new(0, 10, 100), Err(bad.clone()));
    assert_eq!(PollPolicy::new(11, 10, 100), Err(bad));
    let p = PollPolicy::new(10, 10, 0).unwrap();
    assert_eq!(p.initial_interval_ms(), 10);
    assert_eq!(p.max_interval_ms(), 10);
    assert_eq!(p.max_wait_ms(), 0);
}

#[test]
fn poll_url_appends_the_identifier() {
    assert_eq!(poll_url("abc-123"), format!("{}{}", FETCH_URL_FORMAT, "abc-123"));
    assert_eq!(
        poll_url("abc-123"),
        "https://api.nvcf.nvidia.com/v2/nvcf/pexec/status/abc-123"
    );
}

#[test]
fn job_requests_carry_the_token() {
    let submit = submit_request("tok").unwrap();
    assert_eq!(submit.method, Method::Post);
    assert_eq!(submit.url, INVOKE_URL);
    let names: Vec<&str> = submit.headers.iter().map(|h| h.name.as_str()).collect();
    assert_eq!(names, vec!["Authorization", "Accept", "Content-Type"]);
    assert_eq!(submit.headers[0].value, "Bearer tok");
    assert_eq!(submit.headers[1].value, "application/json");

    let poll = poll_request("id9", "tok").unwrap();
    assert_eq!(poll.method, Method::Get);
    assert_eq!(poll.url, "https://api.nvcf.nvidia.com/v2/nvcf/pexec/status/id9");
    assert_eq!(poll.headers.len(), 2);
    assert_eq!(poll.headers[0].value, "Bearer tok");
}
