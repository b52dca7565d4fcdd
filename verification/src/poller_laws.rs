//! What holds of every run of the polling protocol.

use crate::error::ClientErrorView;
use crate::http::{ACCEPTED, OK};
use crate::poller::{
    action_of, actions_from, is_terminal, law_resolved_jobs_stay_resolved, next_delay, run_from,
    step_spec, JobActionView, JobResponseView, JobStateView, PollPolicy,
};
use vstd::prelude::*;

verus! {

/// The delay before poll number `k`, counting from zero: the first interval,
/// doubled `k` times, never above the cap.
pub open spec fn delay_at(policy: PollPolicy, k: nat) -> u64
    decreases k,
{
    if k == 0 {
        policy.initial_interval()
    } else {
        next_delay(policy, delay_at(policy, (k - 1) as nat))
    }
}

/// The delay that the first `n` polls add up to.
pub open spec fn total_wait(policy: PollPolicy, n: nat) -> nat
    decreases n,
{
    if n == 0 {
        0
    } else {
        total_wait(policy, (n - 1) as nat) + delay_at(policy, (n - 1) as nat) as nat
    }
}

/// What a job does until `n` answers have come in that all say "accepted":
/// one submission, then a poll after each of the first `n - 1` delays.
pub open spec fn accepted_actions(policy: PollPolicy, request_id: Seq<char>, n: nat) -> Seq<
    JobActionView,
> {
    seq![JobActionView::Submit] + Seq::new(
        (n - 1) as nat,
        |k: int| JobActionView::Poll { request_id, after_ms: delay_at(policy, k as nat) },
    )
}

/// Whether `responses` is a submission accepted under `request_id`, followed
/// only by polls that were answered "accepted".
pub open spec fn all_accepted(responses: Seq<JobResponseView>, request_id: Seq<char>) -> bool {
    &&& responses.len() >= 1
    &&& responses[0].request_id == Some(request_id)
    &&& forall|i: int| 0 <= i < responses.len() ==> (#[trigger] responses[i]).status == ACCEPTED
}

/// What every state of a run satisfies: a running job has not outrun its
/// waiting budget, its next delay lies between the first interval and the
/// cap, and each poll so far has cost at least the first interval.
pub open spec fn within_budget(policy: PollPolicy, state: JobStateView) -> bool {
    state matches JobStateView::Processing { request_id, polls, waited_ms, delay_ms } ==> {
        &&& waited_ms <= policy.max_wait()
        &&& policy.initial_interval() <= delay_ms <= policy.max_interval()
        &&& (polls + 1) * policy.initial_interval() <= waited_ms
    }
}

/// A run of one answer is one step, and performs the exchange that the
/// state asked for.
pub proof fn law_single_answer(policy: PollPolicy, state: JobStateView, response: JobResponseView)
    ensures
        run_from(policy, state, seq![response]) == step_spec(policy, state, response),
        actions_from(policy, state, seq![response]) == match action_of(state) {
            Some(a) => seq![a],
            None => Seq::empty(),
        },
{
    let one = seq![response];
    assert(one.drop_first().len() == 0);
    assert(one[0] == response);
    let next = step_spec(policy, state, response);
    assert(run_from(policy, next, one.drop_first()) == next);
    assert(actions_from(policy, next, one.drop_first()) == Seq::<JobActionView>::empty());
    if let Some(a) = action_of(state) {
        assert(seq![a] + Seq::<JobActionView>::empty() =~= seq![a]);
    }
}

/// Answering a run in two parts is answering it in one.
pub proof fn law_runs_compose(
    policy: PollPolicy,
    state: JobStateView,
    first: Seq<JobResponseView>,
    second: Seq<JobResponseView>,
)
    ensures
        run_from(policy, state, first + second) == run_from(
            policy,
            run_from(policy, state, first),
            second,
        ),
        actions_from(policy, state, first + second) == actions_from(policy, state, first)
            + actions_from(policy, run_from(policy, state, first), second),
    decreases first.len(),
{
    if first.len() == 0 {
        assert(first + second =~= second);
        assert(Seq::<JobActionView>::empty() + actions_from(policy, state, second)
            =~= actions_from(policy, state, second));
    } else {
        let next = step_spec(policy, state, first[0]);
        assert((first + second).drop_first() =~= first.drop_first() + second);
        assert((first + second)[0] == first[0]);
        law_runs_compose(policy, next, first.drop_first(), second);
        match action_of(state) {
            None => {
                law_resolved_jobs_stay_resolved(policy, state, first);
                law_resolved_jobs_stay_resolved(policy, state, second);
                law_resolved_jobs_stay_resolved(policy, state, first + second);
                assert(Seq::<JobActionView>::empty() + Seq::<JobActionView>::empty()
                    =~= Seq::<JobActionView>::empty());
            },
            Some(a) => {
                let head = actions_from(policy, next, first.drop_first());
                let tail = actions_from(
                    policy,
                    run_from(policy, next, first.drop_first()),
                    second,
                );
                assert(seq![a] + (head + tail) =~= (seq![a] + head) + tail);
            },
        }
    }
}

/// No delay is shorter than the first interval or longer than the cap.
pub proof fn law_delays_stay_in_range(policy: PollPolicy, k: nat)
    requires
        policy.wf(),
    ensures
        policy.initial_interval() <= delay_at(policy, k) <= policy.max_interval(),
    decreases k,
{
    if k > 0 {
        law_delays_stay_in_range(policy, (k - 1) as nat);
    }
}

/// Each poll costs at least the first interval, so `n` polls cost at least
/// `n` times as much, and more polls never cost less.
pub proof fn law_waiting_grows(policy: PollPolicy, n: nat)
    requires
        policy.wf(),
    ensures
        n * policy.initial_interval() <= total_wait(policy, n),
        n <= total_wait(policy, n),
        n > 0 ==> total_wait(policy, (n - 1) as nat) <= total_wait(policy, n),
    decreases n,
{
    let i = policy.initial_interval() as int;
    if n > 0 {
        let m = (n - 1) as nat;
        law_waiting_grows(policy, m);
        law_delays_stay_in_range(policy, m);
        assert(n * i == m * i + i && n * i >= n) by (nonlinear_arith)
            requires
                n == m + 1,
                i >= 1,
        ;
    } else {
        assert(n * i == 0) by (nonlinear_arith)
            requires
                n == 0,
        ;
    }
}

/// While every answer says "accepted" and the delays fit the waiting budget,
/// the job keeps running under the identifier that the submission was given:
/// after `n` such answers it has been polled `n - 1` times, has scheduled the
/// first `n` delays, and has performed one submission and `n - 1` polls of
/// that identifier.
pub proof fn law_accepted_run(
    policy: PollPolicy,
    request_id: Seq<char>,
    responses: Seq<JobResponseView>,
)
    requires
        policy.wf(),
        all_accepted(responses, request_id),
        total_wait(policy, responses.len()) <= policy.max_wait(),
    ensures
        run_from(policy, JobStateView::Submitted, responses) == (JobStateView::Processing {
            request_id,
            polls: (responses.len() - 1) as u64,
            waited_ms: total_wait(policy, responses.len()) as u64,
            delay_ms: delay_at(policy, (responses.len() - 1) as nat),
        }),
        actions_from(policy, JobStateView::Submitted, responses) == accepted_actions(
            policy,
            request_id,
            responses.len(),
        ),
    decreases responses.len(),
{
    let n = responses.len();
    let last = responses[n - 1];
    let start = JobStateView::Submitted;
    law_waiting_grows(policy, n);
    if n == 1 {
        assert(responses =~= seq![last]);
        law_single_answer(policy, start, last);
        assert(total_wait(policy, 1) == total_wait(policy, 0) + delay_at(policy, 0));
        assert(actions_from(policy, start, responses) =~= accepted_actions(
            policy,
            request_id,
            n,
        ));
    } else {
        let front = responses.take(n - 1);
        assert(responses =~= front + seq![last]);
        assert(all_accepted(front, request_id));
        law_accepted_run(policy, request_id, front);
        law_runs_compose(policy, start, front, seq![last]);
        let mid = run_from(policy, start, front);
        law_single_answer(policy, mid, last);
        assert(actions_from(policy, mid, seq![last]) =~= seq![
            JobActionView::Poll {
                request_id,
                after_ms: delay_at(policy, (n - 2) as nat),
            },
        ]);
        assert(accepted_actions(policy, request_id, (n - 1) as nat) + seq![
            JobActionView::Poll {
                request_id,
                after_ms: delay_at(policy, (n - 2) as nat),
            },
        ] =~= accepted_actions(policy, request_id, n));
    }
}

/// A job whose submission is answered with the payload at once succeeds with
/// that payload, and is never polled.
pub proof fn law_immediate_success_needs_no_poll(
    policy: PollPolicy,
    first: JobResponseView,
    rest: Seq<JobResponseView>,
)
    requires
        first.status == OK,
    ensures
        run_from(policy, JobStateView::Submitted, seq![first] + rest) == (JobStateView::Succeeded {
            payload: first.body,
        }),
        actions_from(policy, JobStateView::Submitted, seq![first] + rest) == seq![
            JobActionView::Submit,
        ],
{
    let start = JobStateView::Submitted;
    let done = JobStateView::Succeeded { payload: first.body };
    law_runs_compose(policy, start, seq![first], rest);
    law_single_answer(policy, start, first);
    law_resolved_jobs_stay_resolved(policy, done, rest);
    assert(actions_from(policy, start, seq![first]) =~= seq![JobActionView::Submit]);
    assert(seq![JobActionView::Submit] + Seq::<JobActionView>::empty() =~= seq![
        JobActionView::Submit,
    ]);
}

/// A job that is accepted, answered "accepted" on each of its first polls and
/// then answered with anything else resolves on that last answer: it succeeds
/// with the body of a success answer, and fails with the status and body of
/// any other. It has then performed one submission and as many polls as there
/// were "accepted" answers, all of the same identifier, and whatever is
/// scripted after the last answer is never asked for.
pub proof fn law_run_resolves_on_first_final_answer(
    policy: PollPolicy,
    request_id: Seq<char>,
    accepted: Seq<JobResponseView>,
    last: JobResponseView,
    rest: Seq<JobResponseView>,
)
    requires
        policy.wf(),
        all_accepted(accepted, request_id),
        total_wait(policy, accepted.len()) <= policy.max_wait(),
        last.status != ACCEPTED,
    ensures
        last.status == OK ==> run_from(
            policy,
            JobStateView::Submitted,
            accepted + seq![last] + rest,
        ) == (JobStateView::Succeeded { payload: last.body }),
        last.status != OK ==> run_from(
            policy,
            JobStateView::Submitted,
            accepted + seq![last] + rest,
        ) == (JobStateView::Failed {
            error: ClientErrorView::Remote { status: last.status, detail: last.body },
        }),
        actions_from(policy, JobStateView::Submitted, accepted + seq![last] + rest)
            == accepted_actions(policy, request_id, accepted.len() + 1),
{
    let start = JobStateView::Submitted;
    let n = accepted.len();
    law_accepted_run(policy, request_id, accepted);
    let mid = run_from(policy, start, accepted);
    let end = step_spec(policy, mid, last);
    law_runs_compose(policy, start, accepted + seq![last], rest);
    law_runs_compose(policy, start, accepted, seq![last]);
    law_single_answer(policy, mid, last);
    assert(is_terminal(end));
    law_resolved_jobs_stay_resolved(policy, end, rest);
    let poll = JobActionView::Poll { request_id, after_ms: delay_at(policy, (n - 1) as nat) };
    assert(actions_from(policy, mid, seq![last]) =~= seq![poll]);
    assert(accepted_actions(policy, request_id, n) + seq![poll] + Seq::<JobActionView>::empty()
        =~= accepted_actions(policy, request_id, n + 1));
}

/// A job that is still answered "accepted" when its next delay no longer fits
/// the waiting budget is given up: it fails with a timeout that reports the
/// delay scheduled and the polls answered so far.
pub proof fn law_run_times_out(
    policy: PollPolicy,
    request_id: Seq<char>,
    accepted: Seq<JobResponseView>,
    rest: Seq<JobResponseView>,
)
    requires
        policy.wf(),
        all_accepted(accepted, request_id),
        total_wait(policy, (accepted.len() - 1) as nat) <= policy.max_wait(),
        total_wait(policy, accepted.len()) > policy.max_wait(),
    ensures
        run_from(policy, JobStateView::Submitted, accepted + rest) == (JobStateView::Failed {
            error: ClientErrorView::PollTimeout {
                waited_ms: total_wait(policy, (accepted.len() - 1) as nat) as u64,
                polls: (accepted.len() - 1) as u64,
            },
        }),
{
    let start = JobStateView::Submitted;
    let n = accepted.len();
    let last = accepted[n - 1];
    let front = accepted.take(n - 1);
    assert(accepted =~= front + seq![last]);
    law_runs_compose(policy, start, front, seq![last]);
    let mid = run_from(policy, start, front);
    law_single_answer(policy, mid, last);
    let end = step_spec(policy, mid, last);
    if n == 1 {
        assert(total_wait(policy, 1) == total_wait(policy, 0) + delay_at(policy, 0));
    } else {
        assert(all_accepted(front, request_id));
        law_accepted_run(policy, request_id, front);
        law_waiting_grows(policy, (n - 1) as nat);
    }
    law_runs_compose(policy, start, accepted, rest);
    law_resolved_jobs_stay_resolved(policy, end, rest);
}

/// One step keeps a job within its budget.
pub proof fn law_step_keeps_budget(
    policy: PollPolicy,
    state: JobStateView,
    response: JobResponseView,
)
    requires
        policy.wf(),
        within_budget(policy, state),
    ensures
        within_budget(policy, step_spec(policy, state, response)),
{
    if let JobStateView::Processing { request_id, polls, waited_ms, delay_ms } = state {
        let i = policy.initial_interval();
        assert((polls + 1) * i + i == (polls + 2) * i) by (nonlinear_arith);
        assert((polls + 1) * i >= polls + 1) by (nonlinear_arith)
            requires
                i >= 1,
        ;
    }
}

/// However a job is answered, it never waits longer than its budget, and the
/// number of polls it has been answered stays below the budget divided by
/// the first interval.
pub proof fn law_wait_is_bounded(policy: PollPolicy, responses: Seq<JobResponseView>)
    requires
        policy.wf(),
    ensures
        within_budget(policy, run_from(policy, JobStateView::Submitted, responses)),
{
    lemma_budget_kept_from(policy, JobStateView::Submitted, responses);
}

proof fn lemma_budget_kept_from(
    policy: PollPolicy,
    state: JobStateView,
    responses: Seq<JobResponseView>,
)
    requires
        policy.wf(),
        within_budget(policy, state),
    ensures
        within_budget(policy, run_from(policy, state, responses)),
    decreases responses.len(),
{
    if responses.len() > 0 {
        law_step_keeps_budget(policy, state, responses[0]);
        lemma_budget_kept_from(
            policy,
            step_spec(policy, state, responses[0]),
            responses.drop_first(),
        );
    }
}

} // verus!
