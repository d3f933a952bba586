//! What holds of every sampling cycle, whatever the device answers.

use crate::adc::AdcResponse;
use crate::sampler::{
    backoff_effects, cycle_effects, cycle_length, cycle_outcome, emission_of, emissions,
    leading_not_ready, script_effects, settles, suspended_ms, turn_effects, Emission,
    SamplerEffect, BACKOFF_MS, COOLDOWN_MS,
};
use vstd::prelude::*;

verus! {

/// The reports of two runs of effects, one after the other, are the reports
/// of the first followed by those of the second.
pub proof fn lemma_emissions_concat(first: Seq<SamplerEffect>, second: Seq<SamplerEffect>)
    ensures
        emissions(first + second) == emissions(first) + emissions(second),
    decreases second.len(),
{
    if second.len() > 0 {
        assert((first + second).drop_last() =~= first + second.drop_last());
        lemma_emissions_concat(first, second.drop_last());
    }
}

/// The time that two runs of effects take, one after the other, is the sum
/// of their times.
pub proof fn lemma_suspended_concat(first: Seq<SamplerEffect>, second: Seq<SamplerEffect>)
    ensures
        suspended_ms(first + second) == suspended_ms(first) + suspended_ms(second),
    decreases second.len(),
{
    if second.len() > 0 {
        assert((first + second).drop_last() =~= first + second.drop_last());
        lemma_suspended_concat(first, second.drop_last());
    }
}

/// Retries report nothing, and `count` of them take `count` backoffs.
pub proof fn lemma_backoffs_are_silent(count: nat)
    ensures
        emissions(backoff_effects(count)) == Seq::<Emission>::empty(),
        suspended_ms(backoff_effects(count)) == count * BACKOFF_MS,
    decreases count,
{
    if count > 0 {
        let fewer = backoff_effects((count - 1) as nat);
        let retry = seq![SamplerEffect::Attempt, SamplerEffect::Suspend(BACKOFF_MS)];
        assert(backoff_effects(count) =~= fewer + retry);
        lemma_backoffs_are_silent((count - 1) as nat);
        lemma_emissions_concat(fewer, retry);
        lemma_suspended_concat(fewer, retry);
        lemma_turn_alone(AdcResponse::NotReady);
    }
}

/// One turn taken alone: it reports what the response calls for, once at
/// most, and ends in one suspension, a backoff after a "not ready" and the
/// cooldown after a report.
pub proof fn lemma_turn_alone(response: AdcResponse)
    ensures
        emissions(turn_effects(response)) == match emission_of(response) {
            Some(emission) => seq![emission],
            None => Seq::<Emission>::empty(),
        },
        suspended_ms(turn_effects(response)) == (if response is NotReady {
            BACKOFF_MS
        } else {
            COOLDOWN_MS
        }),
{
    let effects = turn_effects(response);
    match emission_of(response) {
        Some(emission) => {
            let two = effects.drop_last();
            let one = two.drop_last();
            assert(emissions(one.drop_last()) =~= Seq::<Emission>::empty());
            assert(suspended_ms(one.drop_last()) == 0);
            assert(emissions(one) =~= Seq::<Emission>::empty());
            assert(suspended_ms(one) == 0);
            assert(emissions(two) =~= seq![emission]);
            assert(suspended_ms(two) == 0);
        },
        None => {
            let one = effects.drop_last();
            assert(emissions(one.drop_last()) =~= Seq::<Emission>::empty());
            assert(suspended_ms(one.drop_last()) == 0);
            assert(emissions(one) =~= Seq::<Emission>::empty());
            assert(suspended_ms(one) == 0);
        },
    }
}

/// A cycle whose script holds a value or an error ends, and reports exactly
/// once: the reading where the device gave a value, the failure where it
/// gave an error. A cycle whose script runs out first reports nothing.
pub proof fn lemma_cycle_reports_once(responses: Seq<AdcResponse>)
    ensures
        settles(responses) ==> cycle_outcome(responses).is_some() && emissions(
            cycle_effects(responses),
        ) == seq![cycle_outcome(responses).unwrap()],
        !settles(responses) ==> cycle_outcome(responses).is_none() && emissions(
            cycle_effects(responses),
        ) == Seq::<Emission>::empty(),
{
    let retries = leading_not_ready(responses);
    lemma_backoffs_are_silent(retries);
    if settles(responses) {
        let last = responses[retries as int];
        lemma_leading_stops(responses);
        lemma_turn_alone(last);
        lemma_emissions_concat(backoff_effects(retries), turn_effects(last));
    }
}

/// The head of a script is counted exactly: where the first `count`
/// responses are "not ready" and the script ends there or goes on with
/// another kind of response, `count` is the number of leading "not ready"
/// responses.
pub proof fn lemma_leading_not_ready(responses: Seq<AdcResponse>, count: nat)
    requires
        count <= responses.len(),
        forall|j: int| 0 <= j < count ==> responses[j] is NotReady,
        count < responses.len() ==> !(responses[count as int] is NotReady),
    ensures
        leading_not_ready(responses) == count,
    decreases count,
{
    if count > 0 {
        lemma_leading_not_ready(responses.skip(1), (count - 1) as nat);
    }
}

/// The head count stops at the first response that is not "not ready":
/// every response before it is "not ready", and the one at it, if the
/// script reaches that far, is a value or an error.
pub proof fn lemma_leading_stops(responses: Seq<AdcResponse>)
    ensures
        leading_not_ready(responses) <= responses.len(),
        forall|j: int| 0 <= j < leading_not_ready(responses) ==> responses[j] is NotReady,
        settles(responses) ==> !(responses[leading_not_ready(responses) as int] is NotReady),
    decreases responses.len(),
{
    if responses.len() > 0 && responses[0] is NotReady {
        let rest = responses.skip(1);
        lemma_leading_stops(rest);
        assert forall|j: int| 0 <= j < leading_not_ready(responses) implies responses[j]
            is NotReady by {
            if j > 0 {
                assert(rest[j - 1] == responses[j]);
            }
        }
    }
}

/// A script that ends in a value or an error lets the cycle end: the
/// sampler cannot retry for ever on it.
pub proof fn lemma_settled_end_settles(responses: Seq<AdcResponse>)
    requires
        responses.len() > 0,
        !(responses.last() is NotReady),
    ensures
        settles(responses),
{
    lemma_leading_stops(responses);
}

/// The time a cycle takes: one backoff for each "not ready" until the
/// report, and the cooldown after the report. So the report comes
/// `BACKOFF_MS` times the number of retries after the cycle began, and the
/// next cycle's first attempt `COOLDOWN_MS` after the report.
pub proof fn lemma_cycle_timing(responses: Seq<AdcResponse>)
    ensures
        suspended_ms(backoff_effects(leading_not_ready(responses))) == leading_not_ready(
            responses,
        ) * BACKOFF_MS,
        settles(responses) ==> suspended_ms(cycle_effects(responses)) == leading_not_ready(
            responses,
        ) * BACKOFF_MS + COOLDOWN_MS,
{
    let retries = leading_not_ready(responses);
    lemma_backoffs_are_silent(retries);
    if settles(responses) {
        let last = responses[retries as int];
        lemma_leading_stops(responses);
        lemma_turn_alone(last);
        lemma_suspended_concat(backoff_effects(retries), turn_effects(last));
    }
}

/// A cycle is the head of the run: what one cycle does is what the sampler
/// does over the responses that the cycle consumes.
pub proof fn lemma_cycle_is_script_head(responses: Seq<AdcResponse>)
    ensures
        cycle_length(responses) <= responses.len(),
        cycle_effects(responses) == script_effects(
            responses.take(cycle_length(responses) as int),
        ),
{
    let retries = leading_not_ready(responses);
    lemma_leading_stops(responses);
    lemma_retries_effects(responses, retries);
    if settles(responses) {
        let head = responses.take(retries as int + 1);
        assert(head.drop_last() =~= responses.take(retries as int));
    }
}

/// Over responses that are all "not ready" the sampler only retries.
pub proof fn lemma_retries_effects(responses: Seq<AdcResponse>, count: nat)
    requires
        count <= responses.len(),
        forall|j: int| 0 <= j < count ==> responses[j] is NotReady,
    ensures
        script_effects(responses.take(count as int)) == backoff_effects(count),
    decreases count,
{
    if count > 0 {
        lemma_retries_effects(responses, (count - 1) as nat);
        assert(responses.take(count as int).drop_last() =~= responses.take(count - 1));
    }
}

/// Any number of "not ready" responses followed by a value or an error make
/// one whole cycle: the sampler backs off once for each "not ready", then
/// reports what the last response calls for, exactly once, and cools down.
pub proof fn lemma_retries_then_settled(count: nat, last: AdcResponse)
    requires
        !(last is NotReady),
    ensures
        ({
            let responses = Seq::new(count, |i: int| AdcResponse::NotReady).push(last);
            &&& leading_not_ready(responses) == count
            &&& cycle_length(responses) == responses.len()
            &&& cycle_outcome(responses) == emission_of(last)
            &&& cycle_effects(responses) == backoff_effects(count) + turn_effects(last)
            &&& emissions(cycle_effects(responses)) == seq![emission_of(last).unwrap()]
            &&& suspended_ms(cycle_effects(responses)) == count * BACKOFF_MS + COOLDOWN_MS
        }),
{
    let responses = Seq::new(count, |i: int| AdcResponse::NotReady).push(last);
    lemma_leading_not_ready(responses, count);
    lemma_cycle_reports_once(responses);
    lemma_cycle_timing(responses);
}

/// The sampler never spins: after each attempt it suspends before it
/// attempts again, for the backoff at once, or for the cooldown right
/// after the report.
pub proof fn lemma_attempts_suspend(responses: Seq<AdcResponse>, at: int)
    requires
        0 <= at < script_effects(responses).len(),
        script_effects(responses)[at] is Attempt,
    ensures
        ({
            let effects = script_effects(responses);
            ||| at + 1 < effects.len() && effects[at + 1] == SamplerEffect::Suspend(BACKOFF_MS)
            ||| at + 2 < effects.len() && effects[at + 1] is Emit && effects[at + 2]
                == SamplerEffect::Suspend(COOLDOWN_MS)
        }),
    decreases responses.len(),
{
    if responses.len() > 0 && at < script_effects(responses.drop_last()).len() {
        lemma_attempts_suspend(responses.drop_last(), at);
    }
}

} // verus!
