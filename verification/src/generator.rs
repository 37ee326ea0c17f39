//! The tone generator: a sample clock that wraps at the sample rate, and the
//! waveform that is evaluated at the clock's phase.
use std::marker::PhantomData;
use vstd::prelude::*;

verus! {

/// The frequency of the generated tone, in hertz.
pub const TONE_HZ: u32 = 440;

/// The phase of a clock that wraps at `sample_rate`, once `generated` samples
/// have been produced since phase zero.
pub open spec fn phase_at(sample_rate: u32, generated: nat) -> u32 {
    (generated % (sample_rate as nat)) as u32
}

/// The running phase of a generator: the number of samples produced so far,
/// kept modulo the sample rate.
///
/// The phase is always below the sample rate. The number of samples produced
/// is ghost state; only the phase exists at run time.
#[derive(Clone, Copy)]
pub struct SampleClock {
    sample_rate: u32,
    phase: u32,
    generated: Ghost<nat>,
}

impl SampleClock {
    #[verifier::type_invariant]
    spec fn inv(self) -> bool {
        &&& self.sample_rate > 0
        &&& self.phase == phase_at(self.sample_rate, self.generated@)
    }

    /// The rate at which the clock wraps.
    pub closed spec fn spec_sample_rate(&self) -> u32 {
        self.sample_rate
    }

    /// How many samples this clock has counted since phase zero.
    pub closed spec fn generated(&self) -> nat {
        self.generated@
    }

    /// The current phase.
    pub open spec fn spec_phase(&self) -> u32 {
        phase_at(self.sample_rate(), self.generated())
    }

    /// The phase that the clock shows after `n` more samples.
    pub open spec fn phase_after(&self, n: nat) -> u32 {
        phase_at(self.sample_rate(), self.generated() + n)
    }

    /// A clock at phase zero.
    pub fn new(sample_rate: u32) -> (clock: SampleClock)
        requires
            sample_rate > 0,
        ensures
            clock.sample_rate() == sample_rate,
            clock.generated() == 0,
            clock.phase() == 0,
    {
        SampleClock { sample_rate, phase: 0, generated: Ghost(0) }
    }

    #[verifier::when_used_as_spec(spec_sample_rate)]
    pub fn sample_rate(&self) -> (rate: u32)
        ensures
            rate == self.sample_rate(),
            rate > 0,
    {
        proof {
            use_type_invariant(self);
        }
        self.sample_rate
    }

    #[verifier::when_used_as_spec(spec_phase)]
    pub fn phase(&self) -> (phase: u32)
        ensures
            phase == self.phase(),
            phase < self.sample_rate(),
    {
        proof {
            use_type_invariant(self);
        }
        self.phase
    }

    /// Counts one more sample and returns the new phase, which is the old
    /// phase plus one, wrapped at the sample rate.
    pub fn advance(&mut self) -> (phase: u32)
        ensures
            final(self).sample_rate() == old(self).sample_rate(),
            final(self).generated() == old(self).generated() + 1,
            final(self).phase() == (old(self).phase() + 1) % (old(self).sample_rate() as int),
            phase == final(self).phase(),
    {
        proof {
            use_type_invariant(&*self);
            lemma_phase_step(self.sample_rate, self.generated@);
        }
        let next: u32 = if self.phase + 1 == self.sample_rate {
            0
        } else {
            self.phase + 1
        };
        *self = SampleClock {
            sample_rate: self.sample_rate,
            phase: next,
            generated: Ghost(self.generated@ + 1),
        };
        next
    }
}

/// One more sample moves the phase to its successor modulo the sample rate.
pub proof fn lemma_phase_step(sample_rate: u32, generated: nat)
    requires
        sample_rate > 0,
    ensures
        phase_at(sample_rate, generated) < sample_rate,
        phase_at(sample_rate, generated + 1) == (phase_at(sample_rate, generated) + 1) % (
        sample_rate as int),
        phase_at(sample_rate, generated + 1) == if phase_at(sample_rate, generated) + 1
            == sample_rate {
            0
        } else {
            phase_at(sample_rate, generated) + 1
        },
{
    let r = sample_rate as int;
    let g = generated as int;
    assert((g + 1) % r == (g % r + 1) % r && (g % r + 1) % r == if g % r + 1 == r {
        0
    } else {
        g % r + 1
    }) by (nonlinear_arith)
        requires
            r > 0,
            g >= 0,
    ;
}

/// The phase sequence repeats every `sample_rate` samples.
pub proof fn lemma_phase_period(sample_rate: u32, generated: nat)
    requires
        sample_rate > 0,
    ensures
        phase_at(sample_rate, generated + sample_rate as nat) == phase_at(sample_rate, generated),
{
    let r = sample_rate as int;
    let g = generated as int;
    assert((g + r) % r == g % r) by (nonlinear_arith)
        requires
            r > 0,
            g >= 0,
    ;
}

/// No shift shorter than `sample_rate` samples brings the phase back: the
/// period of the phase sequence is exactly `sample_rate`.
pub proof fn lemma_phase_period_is_least(sample_rate: u32, generated: nat, shift: nat)
    requires
        sample_rate > 0,
        0 < shift < sample_rate,
    ensures
        phase_at(sample_rate, generated + shift) != phase_at(sample_rate, generated),
{
    let r = sample_rate as int;
    let g = generated as int;
    let k = shift as int;
    assert((g + k) % r != g % r) by (nonlinear_arith)
        requires
            r > 0,
            g >= 0,
            0 < k < r,
    ;
}

/// Within any `sample_rate` consecutive samples the phase takes every value
/// below `sample_rate`: `phase` is reached after fewer than `sample_rate`
/// further samples.
pub proof fn lemma_phase_cycle_is_complete(sample_rate: u32, generated: nat, phase: u32) -> (shift:
    nat)
    requires
        sample_rate > 0,
        phase < sample_rate,
    ensures
        shift < sample_rate,
        phase_at(sample_rate, generated + shift) == phase,
{
    let r = sample_rate as int;
    let g = generated as int;
    let p = phase as int;
    let here = g % r;
    let k = if p >= here {
        p - here
    } else {
        p - here + r
    };
    assert(0 <= here < r && (g + k) % r == p) by (nonlinear_arith)
        requires
            r > 0,
            g >= 0,
            0 <= p < r,
            here == g % r,
            k == if p >= here {
                p - here
            } else {
                p - here + r
            },
    ;
    k as nat
}

/// A waveform is a function of the phase when it gives one value for each
/// phase.
pub open spec fn is_function_of_phase<T, F: Fn(u32) -> T>(tone: F) -> bool {
    forall|phase: u32, a: T, b: T|
        call_ensures(tone, (phase,), a) && call_ensures(tone, (phase,), b) ==> a == b
}

/// The samples of a waveform that is a function of the phase repeat every
/// `sample_rate` samples: the sample produced `sample_rate` samples after
/// another equals it.
pub proof fn lemma_output_period<T, F: Fn(u32) -> T>(
    tone: F,
    sample_rate: u32,
    generated: nat,
    first: T,
    later: T,
)
    requires
        sample_rate > 0,
        is_function_of_phase(tone),
        call_ensures(tone, (phase_at(sample_rate, generated),), first),
        call_ensures(tone, (phase_at(sample_rate, generated + sample_rate as nat),), later),
    ensures
        first == later,
{
    lemma_phase_period(sample_rate, generated);
}

/// A sample generator: a clock and the waveform evaluated at its phase.
///
/// Each sample advances the clock by one and evaluates the waveform at the
/// new phase. The waveform accepts every phase below the sample rate.
#[verifier::reject_recursive_types(T)]
pub struct Generator<T, F: Fn(u32) -> T> {
    clock: SampleClock,
    tone: F,
    sample: PhantomData<T>,
}

impl<T, F: Fn(u32) -> T> Generator<T, F> {
    #[verifier::type_invariant]
    spec fn inv(self) -> bool {
        forall|phase: u32| phase < self.clock.sample_rate() ==> call_requires(self.tone, (phase,))
    }

    /// The generator's clock.
    pub closed spec fn clock(&self) -> SampleClock {
        self.clock
    }

    /// The generator's waveform.
    pub closed spec fn tone(&self) -> F {
        self.tone
    }

    /// A generator at phase zero.
    pub fn new(sample_rate: u32, tone: F) -> (generator: Self)
        requires
            sample_rate > 0,
            forall|phase: u32| phase < sample_rate ==> call_requires(tone, (phase,)),
        ensures
            generator.clock().sample_rate() == sample_rate,
            generator.clock().generated() == 0,
            generator.tone() == tone,
    {
        Generator { clock: SampleClock::new(sample_rate), tone, sample: PhantomData }
    }

    /// The rate at which the phase wraps.
    pub fn sample_rate(&self) -> (rate: u32)
        ensures
            rate == self.clock().sample_rate(),
            rate > 0,
    {
        self.clock.sample_rate()
    }

    /// The current phase.
    pub fn phase(&self) -> (phase: u32)
        ensures
            phase == self.clock().phase(),
            phase < self.clock().sample_rate(),
    {
        self.clock.phase()
    }

    /// Advances the phase by one, wrapping at the sample rate, and returns
    /// the waveform's value at the new phase.
    pub fn next_sample(&mut self) -> (sample: T)
        ensures
            final(self).tone() == old(self).tone(),
            final(self).clock().sample_rate() == old(self).clock().sample_rate(),
            final(self).clock().generated() == old(self).clock().generated() + 1,
            final(self).clock().phase() == (old(self).clock().phase() + 1) % (old(
                self,
            ).clock().sample_rate() as int),
            call_ensures(old(self).tone(), (final(self).clock().phase(),), sample),
    {
        proof {
            use_type_invariant(&*self);
        }
        let mut clock = self.clock;
        let phase: u32 = clock.advance();
        proof {
            use_type_invariant(&clock);
        }
        self.clock = clock;
        (self.tone)(phase)
    }
}

} // verus!
