use vstd::prelude::*;

use crate::circuit_breaker::{CircuitBreaker, Error as BreakerError};
use crate::cmd::SentMessage;
use crate::configuration::Endpoint;
use crate::events::{AttemptLog, Message};
use crate::retry::{base_wait, jitter_hi, jitter_lo, RandomSource, Retry};
use crate::sender::{same_opt_string, same_status, SentResult};

verus! {

/// The breaker key a delivery for this endpoint runs under: the endpoint's
/// full id string.
pub open spec fn ep_key(id: Seq<char>) -> Seq<char> {
    "ep"@ + "_"@ + id
}

/// The result a delivery attempt carries, whichever way it went.
pub open spec fn outcome_result(outcome: Result<SentResult, SentResult>) -> SentResult {
    match outcome {
        Ok(res) => res,
        Err(res) => res,
    }
}

/// The first half of handling one consumed task, once its message, event and
/// endpoint were found: revive-on-enable, then the breaker's verdict.  If the
/// endpoint is active while its breaker is tripped, the operator re-enabled
/// it, so the breaker is revived.  Returns whether the delivery may proceed;
/// when it may not, the task is dropped with no attempt recorded.
pub fn dispatch_begin(breaker: &mut CircuitBreaker, endpoint: &Endpoint) -> (permitted: bool)
    requires
        old(breaker).wf(),
    ensures
        final(breaker).wf(),
        ({
            let key = ep_key(endpoint.id@);
            let revived = if endpoint.status.spec_is_active() {
                old(breaker).model().on_revive(key)
            } else {
                old(breaker).model()
            };
            &&& final(breaker).model() == revived
            &&& permitted == (final(breaker).spec_state(key) is Open)
        }),
{
    let key = endpoint.id.id_string();
    if endpoint.is_active() {
        breaker.revive(&key);
    }
    breaker.is_call_permitted(&key)
}

/// What the caller must carry out after the outcome of one permitted
/// delivery attempt was folded into the message and the breaker.
pub struct FinishPlan {
    /// The audit entry to persist beside the message.
    pub log: AttemptLog,
    /// Whether the breaker just tripped: persist the endpoint, which has been
    /// set to `DisabledFailing`.
    pub disable_endpoint: bool,
    /// The redelivery to enqueue, with its delay in milliseconds — present
    /// exactly when the attempt failed without tripping the breaker and the
    /// retry policy still allows a retry.
    pub retry: Option<(SentMessage, u64)>,
}

/// The second half of handling one consumed task: the outcome of the HTTP
/// delivery is recorded as the message's next attempt, the breaker is
/// advanced, and the plan says what to persist, whether the endpoint was
/// disabled, and which redelivery to enqueue.
pub fn dispatch_finish<G: RandomSource>(
    breaker: &mut CircuitBreaker,
    msg: &mut Message,
    endpoint: &mut Endpoint,
    retry_policy: &Retry<G>,
    task: &SentMessage,
    outcome: Result<SentResult, SentResult>,
    processing_time_ms: u64,
) -> (plan: FinishPlan)
    requires
        old(breaker).wf(),
        retry_policy.wf(),
        old(msg).wf(),
        !old(msg).attempts.spec_has_delivered(),
        old(msg).attempts@.len() < 0xfffe,
        old(endpoint).id@ == old(msg).endpoint_id@,
        old(breaker).spec_state(ep_key(old(endpoint).id@)) is Open,
        task.attempt < usize::MAX,
    ensures
        final(breaker).wf(),
        final(msg).wf(),
        ({
            let key = ep_key(old(endpoint).id@);
            let m0 = old(breaker).model();
            let res = outcome_result(outcome);
            let recorded = final(msg).attempts@.last();
            &&& final(msg).id == old(msg).id
            &&& final(msg).event_id == old(msg).event_id
            &&& final(msg).endpoint_id == old(msg).endpoint_id
            &&& final(msg).attempts@.len() == old(msg).attempts@.len() + 1
            &&& (forall|i: int|
                0 <= i < old(msg).attempts@.len() ==> #[trigger] final(msg).attempts@[i] == old(
                    msg,
                ).attempts@[i])
            &&& same_status(recorded.spec_status(), res.status)
            &&& recorded.spec_attempt_no() == old(msg).attempts@.len() + 1
            &&& recorded.spec_message_id()@ == old(msg).id@
            &&& plan.log.spec_attempt_id().spec_message_id()@ == old(msg).id@
            &&& plan.log.spec_attempt_id().spec_attempt_no() == old(msg).attempts@.len() + 1
            &&& plan.log.spec_processing_time() == processing_time_ms
            &&& plan.log.spec_response_time() == res.response_time
            &&& same_opt_string(plan.log.spec_response_body(), res.body)
            &&& (outcome is Ok ==> {
                &&& final(breaker).model() == m0.on_success(key)
                &&& !plan.disable_endpoint
                &&& plan.retry is None
                &&& *final(endpoint) == *old(endpoint)
            })
            &&& (outcome is Err ==> final(breaker).model() == m0.on_failure(key))
            &&& (outcome is Err && m0.counts[key] + 1 < crate::circuit_breaker::TRIP_THRESHOLD
                ==> {
                &&& !plan.disable_endpoint
                &&& *final(endpoint) == *old(endpoint)
                &&& (plan.retry is Some <==> task.attempt < retry_policy.spec_max_retries())
                &&& (plan.retry matches Some(next) ==> {
                    &&& next.0.spec_msg_id() == task.spec_msg_id()
                    &&& next.0.attempt == task.attempt + 1
                    &&& (retry_policy.spec_factor() is None ==> next.1 == base_wait(
                        retry_policy.spec_config(),
                        task.attempt,
                    ))
                    &&& (retry_policy.spec_factor() matches Some(p) ==> jitter_lo(
                        base_wait(retry_policy.spec_config(), task.attempt),
                        p,
                    ) <= next.1 <= jitter_hi(base_wait(retry_policy.spec_config(), task.attempt), p))
                })
            })
            &&& (outcome is Err && m0.counts[key] + 1 >= crate::circuit_breaker::TRIP_THRESHOLD
                ==> {
                &&& plan.disable_endpoint
                &&& final(endpoint).status is DisabledFailing
                &&& final(endpoint).id == old(endpoint).id
                &&& final(endpoint).app_id == old(endpoint).app_id
                &&& final(endpoint).url == old(endpoint).url
                &&& final(endpoint).topics == old(endpoint).topics
                &&& plan.retry is None
            })
            &&& (task.attempt == old(msg).attempts@.len() + 1 ==> recorded.spec_attempt_no()
                == task.attempt)
        }),
{
    let key = endpoint.id.id_string();
    let succeeded = outcome.is_ok();
    let res = match &outcome {
        Ok(r) => r.clone(),
        Err(r) => r.clone(),
    };
    let log = msg.record_attempt(res, processing_time_ms);
    let probe = || -> (r: Result<bool, bool>)
        ensures
            (r is Ok <==> succeeded),
        {
            if succeeded {
                Ok(true)
            } else {
                Err(false)
            }
        };
    let verdict = breaker.call(&key, probe);
    match verdict {
        Ok(_) => FinishPlan { log, disable_endpoint: false, retry: None },
        Err(BreakerError::Open(_)) => {
            let retry = if retry_policy.is_retryable(task.attempt) {
                let next = task.with_increased_attempt();
                let delay = retry_policy.get_waiting_time(task.attempt);
                Some((next, delay))
            } else {
                None
            };
            FinishPlan { log, disable_endpoint: false, retry }
        },
        Err(BreakerError::Closed(_)) => {
            endpoint.disable_failing();
            FinishPlan { log, disable_endpoint: true, retry: None }
        },
        Err(BreakerError::Rejected) => {
            proof {
                assert(false);
            }
            FinishPlan { log, disable_endpoint: false, retry: None }
        },
    }
}

} // verus!
