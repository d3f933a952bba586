//! The sensor sampler: one reading per sampling period, with patient retries.

use crate::adc::{AdcResponse, ScriptedAdc};
use crate::sampler_laws::{lemma_leading_not_ready, lemma_suspended_concat};
use vstd::prelude::*;

verus! {

/// Suspension after a conversion attempt found the device not ready, in
/// milliseconds.
pub const BACKOFF_MS: u64 = 10;

/// Suspension between the end of one cycle and the first attempt of the
/// next, in milliseconds.
pub const COOLDOWN_MS: u64 = 1000;

/// The one report that ends a sampling cycle.
#[derive(Clone, Copy, Debug, PartialEq, Eq, Structural)]
pub enum Emission {
    /// A reading in millivolts.
    Reading(u16),
    /// The device reported an error; the cycle ended without a value.
    Failure,
}

/// Where the sampler stands within its cycle.
#[derive(Clone, Copy, Debug, PartialEq, Eq, Structural)]
pub enum SamplerPhase {
    /// A cycle begins: the first conversion of the cycle is due.
    Start,
    /// A backoff has passed: the conversion is due again.
    Polling,
    /// Suspended for `BACKOFF_MS` after a "not ready".
    Backoff,
    /// Suspended for `COOLDOWN_MS` after the cycle's report.
    Cooldown,
}

/// What the run loop hands to the sampler.
#[derive(Clone, Copy, Debug, PartialEq, Eq, Structural)]
pub enum SamplerEvent {
    /// The conversion that was asked for came to this.
    Response(AdcResponse),
    /// The suspension that was asked for is over.
    TimerExpired,
}

/// What the sampler asks of the run loop next.
#[derive(Clone, Copy, Debug, PartialEq, Eq, Structural)]
pub enum Directive {
    /// Attempt one conversion now, without blocking, and hand back a
    /// `SamplerEvent::Response`.
    Convert,
    /// Suspend for this many milliseconds, then hand back
    /// `SamplerEvent::TimerExpired`.
    Sleep(u64),
}

/// An event that the sampler was not waiting for.
#[derive(Clone, Copy, Debug, PartialEq, Eq, Structural)]
pub enum StepError {
    /// A response arrived while the sampler was suspended.
    UnexpectedResponse,
    /// A timer expired while a conversion was due.
    UnexpectedTimer,
}

/// Whether a conversion is due in this phase.
pub open spec fn awaits_response(phase: SamplerPhase) -> bool {
    phase is Start || phase is Polling
}

/// What the run loop is to do while the sampler is in this phase.
pub open spec fn directive_of(phase: SamplerPhase) -> Directive {
    match phase {
        SamplerPhase::Start => Directive::Convert,
        SamplerPhase::Polling => Directive::Convert,
        SamplerPhase::Backoff => Directive::Sleep(BACKOFF_MS),
        SamplerPhase::Cooldown => Directive::Sleep(COOLDOWN_MS),
    }
}

/// The report that a response calls for: none while the device is not ready.
pub open spec fn emission_of(response: AdcResponse) -> Option<Emission> {
    match response {
        AdcResponse::Ready(mv) => Some(Emission::Reading(mv)),
        AdcResponse::NotReady => None,
        AdcResponse::Error => Some(Emission::Failure),
    }
}

/// The phase that follows a response: a backoff while the device is not
/// ready, the cooldown once the cycle has its report.
pub open spec fn phase_after_response(response: AdcResponse) -> SamplerPhase {
    if response is NotReady {
        SamplerPhase::Backoff
    } else {
        SamplerPhase::Cooldown
    }
}

/// The transition relation of the sampler: the phase and the report that
/// follow an event, or the reason why the event does not fit the phase.
pub open spec fn step_spec(phase: SamplerPhase, event: SamplerEvent) -> Result<
    (SamplerPhase, Option<Emission>),
    StepError,
> {
    match event {
        SamplerEvent::Response(response) => if awaits_response(phase) {
            Ok((phase_after_response(response), emission_of(response)))
        } else {
            Err(StepError::UnexpectedResponse)
        },
        SamplerEvent::TimerExpired => match phase {
            SamplerPhase::Backoff => Ok((SamplerPhase::Polling, None)),
            SamplerPhase::Cooldown => Ok((SamplerPhase::Start, None)),
            _ => Err(StepError::UnexpectedTimer),
        },
    }
}

/// One thing the sampler does that the outside can see.
#[derive(Clone, Copy, Debug, PartialEq, Eq, Structural)]
pub enum SamplerEffect {
    /// One conversion attempt.
    Attempt,
    /// The cycle's report, handed to the log.
    Emit(Emission),
    /// A suspension of this many milliseconds.
    Suspend(u64),
}

/// How a turn of the sampler against a scripted device went.
#[derive(Clone, Copy, Debug, PartialEq, Eq, Structural)]
pub enum TurnOutcome {
    /// The script was used up: nothing was attempted, nothing changed.
    ScriptOver,
    /// The device was not ready: the sampler backs off.
    Retrying,
    /// The cycle ended with this report: the sampler cools down.
    Reported(Emission),
}

/// What one sampling cycle against a scripted device did.
#[derive(Clone, Debug, PartialEq, Eq)]
pub struct CycleReport {
    /// Everything the sampler did, in order.
    pub effects: Vec<SamplerEffect>,
    /// How often the sampler backed off.
    pub backoffs: usize,
    /// The cycle's report, or `None` where the script ended first.
    pub outcome: Option<Emission>,
}

/// What the sampler does between two suspensions when the conversion comes
/// to `response`: it attempts, reports if the cycle ends, and suspends.
pub open spec fn turn_effects(response: AdcResponse) -> Seq<SamplerEffect> {
    match emission_of(response) {
        Some(emission) => seq![
            SamplerEffect::Attempt,
            SamplerEffect::Emit(emission),
            SamplerEffect::Suspend(COOLDOWN_MS),
        ],
        None => seq![SamplerEffect::Attempt, SamplerEffect::Suspend(BACKOFF_MS)],
    }
}

/// How a turn that consumed `response` went.
pub open spec fn turn_outcome(response: AdcResponse) -> TurnOutcome {
    match emission_of(response) {
        Some(emission) => TurnOutcome::Reported(emission),
        None => TurnOutcome::Retrying,
    }
}

/// What the sampler does while a device gives these responses, one per
/// attempt: the effects of each turn, one turn after the other.
pub open spec fn script_effects(responses: Seq<AdcResponse>) -> Seq<SamplerEffect>
    decreases responses.len(),
{
    if responses.len() == 0 {
        Seq::empty()
    } else {
        script_effects(responses.drop_last()) + turn_effects(responses.last())
    }
}

/// How many "not ready" responses stand at the head of the script.
pub open spec fn leading_not_ready(responses: Seq<AdcResponse>) -> nat
    decreases responses.len(),
{
    if responses.len() == 0 || !(responses[0] is NotReady) {
        0
    } else {
        1 + leading_not_ready(responses.skip(1))
    }
}

/// Whether the script lets a cycle end: some response is a value or an error.
pub open spec fn settles(responses: Seq<AdcResponse>) -> bool {
    leading_not_ready(responses) < responses.len()
}

/// How many responses one cycle consumes: the "not ready" ones at the head
/// and the one that ends the cycle, if there is one.
pub open spec fn cycle_length(responses: Seq<AdcResponse>) -> nat {
    if settles(responses) {
        leading_not_ready(responses) + 1
    } else {
        responses.len()
    }
}

/// `count` retries: an attempt and a backoff, `count` times over.
pub open spec fn backoff_effects(count: nat) -> Seq<SamplerEffect> {
    Seq::new(
        2 * count,
        |i: int|
            if i % 2 == 0 {
                SamplerEffect::Attempt
            } else {
                SamplerEffect::Suspend(BACKOFF_MS)
            },
    )
}

/// What one cycle does against this script: it retries through the "not
/// ready" responses at the head, and ends with the turn of the first
/// response that is a value or an error, if the script holds one.
pub open spec fn cycle_effects(responses: Seq<AdcResponse>) -> Seq<SamplerEffect> {
    let retries = leading_not_ready(responses);
    if settles(responses) {
        backoff_effects(retries) + turn_effects(responses[retries as int])
    } else {
        backoff_effects(retries)
    }
}

/// The report of the cycle that this script drives, if it lets the cycle end.
pub open spec fn cycle_outcome(responses: Seq<AdcResponse>) -> Option<Emission> {
    if settles(responses) {
        emission_of(responses[leading_not_ready(responses) as int])
    } else {
        None
    }
}

/// The phase in which a sampler that was in `phase` is left by a cycle
/// against this script.
pub open spec fn phase_after_cycle(
    phase: SamplerPhase,
    responses: Seq<AdcResponse>,
) -> SamplerPhase {
    if responses.len() == 0 {
        phase
    } else if settles(responses) {
        SamplerPhase::Cooldown
    } else {
        SamplerPhase::Backoff
    }
}

/// The reports among the effects, in order.
pub open spec fn emissions(effects: Seq<SamplerEffect>) -> Seq<Emission>
    decreases effects.len(),
{
    if effects.len() == 0 {
        Seq::empty()
    } else {
        match effects.last() {
            SamplerEffect::Emit(emission) => emissions(effects.drop_last()).push(emission),
            _ => emissions(effects.drop_last()),
        }
    }
}

/// The time the effects take: the sum of their suspensions, in milliseconds.
pub open spec fn suspended_ms(effects: Seq<SamplerEffect>) -> nat
    decreases effects.len(),
{
    if effects.len() == 0 {
        0
    } else {
        match effects.last() {
            SamplerEffect::Suspend(ms) => suspended_ms(effects.drop_last()) + ms as nat,
            _ => suspended_ms(effects.drop_last()),
        }
    }
}

/// The sampler's state machine. It owns no device: the run loop owns the
/// converter and reports each attempt as an event.
#[derive(Clone, Copy, Debug, PartialEq, Eq)]
pub struct SensorSampler {
    phase: SamplerPhase,
}

impl SensorSampler {
    /// The phase the sampler is in.
    pub closed spec fn view(&self) -> SamplerPhase {
        self.phase
    }

    /// A sampler at the start of its first cycle.
    pub fn new() -> (sampler: SensorSampler)
        ensures
            sampler@ == SamplerPhase::Start,
    {
        SensorSampler { phase: SamplerPhase::Start }
    }

    /// The phase the sampler is in.
    pub fn phase(&self) -> (phase: SamplerPhase)
        ensures
            phase == self@,
    {
        self.phase
    }

    /// What the run loop is to do next.
    pub fn directive(&self) -> (directive: Directive)
        ensures
            directive == directive_of(self@),
    {
        match self.phase {
            SamplerPhase::Start | SamplerPhase::Polling => Directive::Convert,
            SamplerPhase::Backoff => Directive::Sleep(BACKOFF_MS),
            SamplerPhase::Cooldown => Directive::Sleep(COOLDOWN_MS),
        }
    }

    /// Takes one event. An event that fits the phase moves the sampler on and
    /// yields the cycle's report where the event ends the cycle; any other
    /// event is refused and leaves the sampler as it was.
    pub fn step(&mut self, event: SamplerEvent) -> (outcome: Result<Option<Emission>, StepError>)
        ensures
            match step_spec(old(self)@, event) {
                Ok((phase, emission)) => outcome == Ok::<Option<Emission>, StepError>(emission)
                    && final(self)@ == phase,
                Err(error) => outcome == Err::<Option<Emission>, StepError>(error)
                    && final(self)@ == old(self)@,
            },
    {
        match event {
            SamplerEvent::Response(response) => {
                match self.phase {
                    SamplerPhase::Start | SamplerPhase::Polling => {},
                    _ => {
                        return Err(StepError::UnexpectedResponse);
                    },
                }
                match response {
                    AdcResponse::Ready(mv) => {
                        self.phase = SamplerPhase::Cooldown;
                        Ok(Some(Emission::Reading(mv)))
                    },
                    AdcResponse::NotReady => {
                        self.phase = SamplerPhase::Backoff;
                        Ok(None)
                    },
                    AdcResponse::Error => {
                        self.phase = SamplerPhase::Cooldown;
                        Ok(Some(Emission::Failure))
                    },
                }
            },
            SamplerEvent::TimerExpired => {
                match self.phase {
                    SamplerPhase::Backoff => {
                        self.phase = SamplerPhase::Polling;
                        Ok(None)
                    },
                    SamplerPhase::Cooldown => {
                        self.phase = SamplerPhase::Start;
                        Ok(None)
                    },
                    _ => Err(StepError::UnexpectedTimer),
                }
            },
        }
    }

    /// Runs the sampler from one suspension to the next against a scripted
    /// device, and appends what it did to `log`. The suspension the sampler
    /// was in is taken to be over. With the script used up the turn does
    /// nothing.
    pub fn run_turn(
        &mut self,
        adc: &mut ScriptedAdc,
        log: &mut Vec<SamplerEffect>,
    ) -> (outcome: TurnOutcome)
        ensures
            old(adc).pending().len() == 0 ==> {
                &&& outcome == TurnOutcome::ScriptOver
                &&& final(self)@ == old(self)@
                &&& final(adc).pending() == old(adc).pending()
                &&& final(log)@ == old(log)@
            },
            old(adc).pending().len() > 0 ==> {
                &&& outcome == turn_outcome(old(adc).pending()[0])
                &&& final(self)@ == phase_after_response(old(adc).pending()[0])
                &&& final(adc).pending() == old(adc).pending().skip(1)
                &&& final(log)@ == old(log)@ + turn_effects(old(adc).pending()[0])
            },
    {
        if adc.remaining() == 0 {
            return TurnOutcome::ScriptOver;
        }
        if let Directive::Sleep(_) = self.directive() {
            let _ = self.step(SamplerEvent::TimerExpired);
        }
        let mut outcome = TurnOutcome::Retrying;
        log.push(SamplerEffect::Attempt);
        if let Some(response) = adc.attempt_conversion() {
            if let Ok(Some(emission)) = self.step(SamplerEvent::Response(response)) {
                log.push(SamplerEffect::Emit(emission));
                outcome = TurnOutcome::Reported(emission);
            }
        }
        if let Directive::Sleep(ms) = self.directive() {
            log.push(SamplerEffect::Suspend(ms));
        }
        outcome
    }

    /// One sampling cycle against a scripted device: the sampler retries,
    /// backing off after each attempt that finds the device not ready, until
    /// a response is a value or an error, reports it, and enters its
    /// cooldown. The suspension the sampler was in is taken to be over.
    /// Where the script ends before the cycle does, the cycle stays open and
    /// the report says so.
    pub fn sample_once(&mut self, adc: &mut ScriptedAdc) -> (report: CycleReport)
        ensures
            report.effects@ == cycle_effects(old(adc).pending()),
            report.backoffs == leading_not_ready(old(adc).pending()),
            report.outcome == cycle_outcome(old(adc).pending()),
            final(adc).pending() == old(adc).pending().skip(
                cycle_length(old(adc).pending()) as int,
            ),
            final(self)@ == phase_after_cycle(old(self)@, old(adc).pending()),
    {
        let ghost script = adc.pending();
        let mut effects: Vec<SamplerEffect> = Vec::new();
        let mut backoffs: usize = 0;
        let mut outcome: Option<Emission> = None;
        proof {
            adc.lemma_pending_fits();
        }
        while adc.remaining() > 0
            invariant_except_break
                outcome.is_none(),
                effects@ == backoff_effects(backoffs as nat),
                adc.pending() == script.skip(backoffs as int),
                self@ == (if backoffs == 0 {
                    old(self)@
                } else {
                    SamplerPhase::Backoff
                }),
            invariant
                backoffs <= script.len() <= usize::MAX,
                forall|j: int| 0 <= j < backoffs ==> script[j] is NotReady,
            ensures
                outcome.is_none() ==> {
                    &&& backoffs == script.len()
                    &&& effects@ == backoff_effects(backoffs as nat)
                    &&& adc.pending() == script.skip(backoffs as int)
                    &&& self@ == (if backoffs == 0 {
                        old(self)@
                    } else {
                        SamplerPhase::Backoff
                    })
                },
                outcome.is_some() ==> {
                    &&& backoffs < script.len()
                    &&& !(script[backoffs as int] is NotReady)
                    &&& outcome == emission_of(script[backoffs as int])
                    &&& effects@ == backoff_effects(backoffs as nat) + turn_effects(
                        script[backoffs as int],
                    )
                    &&& adc.pending() == script.skip(backoffs + 1)
                    &&& self@ == SamplerPhase::Cooldown
                },
            decreases script.len() - backoffs,
        {
            match self.run_turn(adc, &mut effects) {
                TurnOutcome::Reported(emission) => {
                    outcome = Some(emission);
                    break ;
                },
                _ => {
                    backoffs = backoffs + 1;
                },
            }
        }
        proof {
            lemma_leading_not_ready(script, backoffs as nat);
        }
        CycleReport { effects, backoffs, outcome }
    }
}

/// The simulated time that the effects take: the sum of their suspensions
/// in milliseconds, or `None` where the sum does not fit in a `u64`.
pub fn total_suspension(effects: &Vec<SamplerEffect>) -> (total: Option<u64>)
    ensures
        suspended_ms(effects@) <= u64::MAX ==> total == Some(suspended_ms(effects@) as u64),
        suspended_ms(effects@) > u64::MAX ==> total.is_none(),
{
    let mut total: u64 = 0;
    let mut read: usize = 0;
    while read < effects.len()
        invariant
            read <= effects.len(),
            total == suspended_ms(effects@.take(read as int)),
        decreases effects.len() - read,
    {
        proof {
            let seen = effects@.take(read + 1);
            assert(seen.drop_last() =~= effects@.take(read as int));
            lemma_suspended_concat(seen, effects@.skip(read + 1));
            assert(seen + effects@.skip(read + 1) =~= effects@);
        }
        if let SamplerEffect::Suspend(ms) = effects[read] {
            match total.checked_add(ms) {
                Some(sum) => {
                    total = sum;
                },
                None => {
                    return None;
                },
            }
        }
        read = read + 1;
    }
    assert(effects@.take(read as int) =~= effects@);
    Some(total)
}

} // verus!
