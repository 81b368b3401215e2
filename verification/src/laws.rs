//! What holds of every probe.

use crate::policy::{permits, violation_message, VIOLATION_PREFIX};
use crate::probe::{latency_of, outcome_result, probe_reply, PingResult, TransportOutcome};
use crate::text::occurs_in;
use vstd::prelude::*;

verus! {

/// A policy is a set: whether it permits a target depends on which
/// substrings it lists, not on their order or on how often each is listed.
pub proof fn lemma_policy_is_a_set(
    first: Seq<Seq<char>>,
    second: Seq<Seq<char>>,
    target: Seq<char>,
)
    requires
        first.to_set() == second.to_set(),
    ensures
        permits(first, target) == permits(second, target),
{
    if permits(first, target) {
        let i = choose|i: int| 0 <= i < first.len() && occurs_in(#[trigger] first[i], target);
        assert(first.to_set().contains(first[i]));
    }
    if permits(second, target) {
        let i = choose|i: int| 0 <= i < second.len() && occurs_in(#[trigger] second[i], target);
        assert(second.to_set().contains(second[i]));
    }
}

/// Under a policy of one substring, the message of a refusal is the prefix
/// followed by that substring.
pub proof fn lemma_message_names_the_domain(domain: Seq<char>)
    ensures
        violation_message(seq![domain]) == VIOLATION_PREFIX@ + domain,
{
}

/// A target that the policy does not permit is refused, and the refusal does
/// not depend on anything a transport could observe: no request is behind it.
pub proof fn lemma_refusal_needs_no_request(
    allowed: Seq<Seq<char>>,
    target: Seq<char>,
    outcome: TransportOutcome,
    elapsed_millis: u128,
)
    requires
        !permits(allowed, target),
    ensures
        probe_reply(allowed, target, outcome, elapsed_millis) == Err::<PingResult, Seq<Seq<char>>>(
            allowed,
        ),
{
}

/// A permitted target is never refused: its probe reports the result of its
/// one request.
pub proof fn lemma_permitted_target_is_probed(
    allowed: Seq<Seq<char>>,
    target: Seq<char>,
    outcome: TransportOutcome,
    elapsed_millis: u128,
)
    requires
        permits(allowed, target),
    ensures
        probe_reply(allowed, target, outcome, elapsed_millis) == Ok::<PingResult, Seq<Seq<char>>>(
            outcome_result(outcome, elapsed_millis),
        ),
{
}

/// A response counts as success whatever its status code, and is reported
/// with the low 64 bits of the time it took.
pub proof fn lemma_any_response_is_success(status: u16, elapsed_millis: u128)
    ensures
        outcome_result(TransportOutcome::Responded { status }, elapsed_millis) == (PingResult {
            success: true,
            latency: latency_of(elapsed_millis),
        }),
{
}

/// A response that arrives within `u64::MAX` milliseconds is reported with
/// exactly the time it took.
pub proof fn lemma_latency_is_elapsed(elapsed_millis: u128)
    requires
        elapsed_millis <= u64::MAX,
    ensures
        latency_of(elapsed_millis) == elapsed_millis,
{
}

/// A transport failure is reported as failure with latency zero, however
/// long it took to fail.
pub proof fn lemma_failure_reports_no_latency(elapsed_millis: u128)
    ensures
        outcome_result(TransportOutcome::Failed, elapsed_millis) == (PingResult {
            success: false,
            latency: 0,
        }),
{
}

/// No result claims a latency for a probe that failed.
pub proof fn lemma_result_is_well_formed(outcome: TransportOutcome, elapsed_millis: u128)
    ensures
        outcome_result(outcome, elapsed_millis).well_formed(),
{
}

/// Two probes of the same target under the same policy, whose requests end
/// in the same outcome, agree: both are refused with the same policy, or
/// both report the same `success`. Only the latency can differ, and only
/// where the elapsed times do.
pub proof fn lemma_probe_repeatable(
    allowed: Seq<Seq<char>>,
    target: Seq<char>,
    outcome: TransportOutcome,
    first_elapsed: u128,
    second_elapsed: u128,
)
    ensures
        match (
            probe_reply(allowed, target, outcome, first_elapsed),
            probe_reply(allowed, target, outcome, second_elapsed),
        ) {
            (Ok(first), Ok(second)) => {
                &&& first.success == second.success
                &&& first_elapsed == second_elapsed ==> first == second
                &&& outcome is Failed ==> first == second
            },
            (Err(first), Err(second)) => first == second,
            _ => false,
        },
{
}

} // verus!
