use vstd::prelude::*;

use crate::pitchbend::LerpStep;

verus! {

/// The stages of an envelope, in the order a note walks through them.
#[derive(Clone, Copy, Debug, PartialEq, Eq, Structural)]
pub enum EnvelopePhase {
    Attack,
    Hold,
    Decay,
    Sustain,
    Release,
    Off,
}

/// Which interpolation a ramp asks for: attack and retrigger ramps run in amplitude space,
/// decay and release ramps in decibel space.
#[derive(Clone, Copy, Debug, PartialEq, Eq, Structural)]
pub enum RampKind {
    Attack,
    Decay,
    Release,
    Retrigger,
}

/// What an envelope shows at one sample: a level held as it is, or a point on a ramp.
#[derive(Clone, Copy, Debug, PartialEq, Eq, Structural)]
pub enum EnvelopeValue<T> {
    Constant(T),
    Ramp(RampKind, LerpStep<T>),
}

/// The lengths of the timed stages, in samples. A stage of length zero is skipped.
#[derive(Clone, Copy, Debug, PartialEq, Eq, Structural)]
pub struct EnvelopeTimes {
    pub attack: usize,
    pub hold: usize,
    pub decay: usize,
    pub release: usize,
}

/// The three levels an envelope moves between: silence, the peak, and the sustain level.
#[derive(Clone, Copy, Debug, PartialEq, Eq, Structural)]
pub struct EnvelopeLevels<T> {
    pub zero: T,
    pub one: T,
    pub sustain: T,
}

/// The stages that last a fixed number of samples.
pub open spec fn is_timed(phase: EnvelopePhase) -> bool {
    match phase {
        EnvelopePhase::Sustain | EnvelopePhase::Off => false,
        _ => true,
    }
}

/// The stage that follows a timed stage once it has run its length.
pub open spec fn next_phase(phase: EnvelopePhase) -> EnvelopePhase {
    match phase {
        EnvelopePhase::Attack => EnvelopePhase::Hold,
        EnvelopePhase::Hold => EnvelopePhase::Decay,
        EnvelopePhase::Decay => EnvelopePhase::Sustain,
        EnvelopePhase::Release => EnvelopePhase::Off,
        other => other,
    }
}

/// How many stages at most lie between a stage and the next untimed one.
pub open spec fn phase_rank(phase: EnvelopePhase) -> nat {
    match phase {
        EnvelopePhase::Attack => 3,
        EnvelopePhase::Hold => 2,
        EnvelopePhase::Decay | EnvelopePhase::Release => 1,
        _ => 0,
    }
}

impl EnvelopeTimes {
    /// The length of a stage in samples; untimed stages have none.
    pub open spec fn length(self, phase: EnvelopePhase) -> nat {
        match phase {
            EnvelopePhase::Attack => self.attack as nat,
            EnvelopePhase::Hold => self.hold as nat,
            EnvelopePhase::Decay => self.decay as nat,
            EnvelopePhase::Release => self.release as nat,
            _ => 0,
        }
    }

    /// The stage an envelope actually stands in when it enters `phase`: stages of length zero
    /// are passed over at once.
    pub open spec fn settle(self, phase: EnvelopePhase) -> EnvelopePhase
        decreases phase_rank(phase),
    {
        if is_timed(phase) && self.length(phase) == 0 {
            self.settle(next_phase(phase))
        } else {
            phase
        }
    }

    fn stage_length(&self, phase: EnvelopePhase) -> (r: usize)
        ensures
            r == self.length(phase),
    {
        match phase {
            EnvelopePhase::Attack => self.attack,
            EnvelopePhase::Hold => self.hold,
            EnvelopePhase::Decay => self.decay,
            EnvelopePhase::Release => self.release,
            _ => 0,
        }
    }

    /// Enters `phase`, passing over stages of length zero.
    pub fn settle_from(&self, phase: EnvelopePhase) -> (r: EnvelopePhase)
        ensures
            r == self.settle(phase),
            is_timed(r) ==> self.length(r) > 0,
        decreases phase_rank(phase),
    {
        let timed = match phase {
            EnvelopePhase::Sustain | EnvelopePhase::Off => false,
            _ => true,
        };
        if timed && self.stage_length(phase) == 0 {
            let next = match phase {
                EnvelopePhase::Attack => EnvelopePhase::Hold,
                EnvelopePhase::Hold => EnvelopePhase::Decay,
                EnvelopePhase::Decay => EnvelopePhase::Sustain,
                _ => EnvelopePhase::Off,
            };
            self.settle_from(next)
        } else {
            phase
        }
    }
}

/// The state of one voice's envelope: the stage it is in, how many samples of that stage have
/// passed, and the level its current ramp started from.
#[derive(Clone, Copy, Debug)]
pub struct Envelope<T> {
    pub times: EnvelopeTimes,
    pub levels: EnvelopeLevels<T>,
    pub phase: EnvelopePhase,
    pub elapsed: usize,
    pub from: T,
    pub retriggered: bool,
}

impl<T: Copy> Envelope<T> {
    /// A timed stage has samples left to run; an untimed one keeps no count.
    pub open spec fn wf(self) -> bool {
        if is_timed(self.phase) {
            self.elapsed < self.times.length(self.phase)
        } else {
            self.elapsed == 0
        }
    }

    /// A silent envelope that no note has started.
    pub open spec fn initial(times: EnvelopeTimes, levels: EnvelopeLevels<T>) -> Self {
        Envelope {
            times,
            levels,
            phase: EnvelopePhase::Off,
            elapsed: 0,
            from: levels.zero,
            retriggered: false,
        }
    }

    /// The state one sample later.
    pub open spec fn ticked(self) -> Self {
        if is_timed(self.phase) {
            if self.elapsed + 1 < self.times.length(self.phase) {
                Envelope { elapsed: (self.elapsed + 1) as usize, ..self }
            } else {
                Envelope { phase: self.times.settle(next_phase(self.phase)), elapsed: 0, ..self }
            }
        } else {
            self
        }
    }

    /// The state `n` samples later.
    pub open spec fn ticks(self, n: nat) -> Self
        decreases n,
    {
        if n == 0 {
            self
        } else {
            self.ticked().ticks((n - 1) as nat)
        }
    }

    /// The state after a note starts while the envelope shows `live`. From silence the attack
    /// rises from the zero level; otherwise it is a retrigger and rises from `live`.
    pub open spec fn noted_on(self, live: T) -> Self {
        let retriggered = self.phase != EnvelopePhase::Off;
        Envelope {
            phase: self.times.settle(EnvelopePhase::Attack),
            elapsed: 0,
            from: if retriggered {
                live
            } else {
                self.levels.zero
            },
            retriggered,
            ..self
        }
    }

    /// The state after the note ends while the envelope shows `live`: the release falls from
    /// `live`. A silent envelope stays silent.
    pub open spec fn noted_off(self, live: T) -> Self {
        if self.phase == EnvelopePhase::Off {
            self
        } else {
            Envelope {
                phase: self.times.settle(EnvelopePhase::Release),
                elapsed: 0,
                from: live,
                ..self
            }
        }
    }

    /// What the envelope shows in its current state.
    pub open spec fn shown(self) -> EnvelopeValue<T> {
        match self.phase {
            EnvelopePhase::Attack => EnvelopeValue::Ramp(
                if self.retriggered {
                    RampKind::Retrigger
                } else {
                    RampKind::Attack
                },
                LerpStep {
                    start: self.from,
                    end: self.levels.one,
                    index: self.elapsed,
                    count: self.times.attack,
                },
            ),
            EnvelopePhase::Hold => EnvelopeValue::Constant(self.levels.one),
            EnvelopePhase::Decay => EnvelopeValue::Ramp(
                RampKind::Decay,
                LerpStep {
                    start: self.levels.one,
                    end: self.levels.sustain,
                    index: self.elapsed,
                    count: self.times.decay,
                },
            ),
            EnvelopePhase::Sustain => EnvelopeValue::Constant(self.levels.sustain),
            EnvelopePhase::Release => EnvelopeValue::Ramp(
                RampKind::Release,
                LerpStep {
                    start: self.from,
                    end: self.levels.zero,
                    index: self.elapsed,
                    count: self.times.release,
                },
            ),
            EnvelopePhase::Off => EnvelopeValue::Constant(self.levels.zero),
        }
    }

    /// A silent envelope with the given stage lengths and levels.
    pub fn new(times: EnvelopeTimes, levels: EnvelopeLevels<T>) -> (r: Self)
        ensures
            r == Self::initial(times, levels),
            r.wf(),
    {
        Envelope {
            times,
            levels,
            phase: EnvelopePhase::Off,
            elapsed: 0,
            from: levels.zero,
            retriggered: false,
        }
    }

    /// Advances the envelope by one sample.
    pub fn tick(&mut self)
        requires
            old(self).wf(),
        ensures
            *final(self) == old(self).ticked(),
            final(self).wf(),
    {
        let timed = match self.phase {
            EnvelopePhase::Sustain | EnvelopePhase::Off => false,
            _ => true,
        };
        if timed {
            let len = self.times.stage_length(self.phase);
            if self.elapsed + 1 < len {
                self.elapsed = self.elapsed + 1;
            } else {
                let next = match self.phase {
                    EnvelopePhase::Attack => EnvelopePhase::Hold,
                    EnvelopePhase::Hold => EnvelopePhase::Decay,
                    EnvelopePhase::Decay => EnvelopePhase::Sustain,
                    _ => EnvelopePhase::Off,
                };
                self.phase = self.times.settle_from(next);
                self.elapsed = 0;
            }
        }
    }

    /// Starts a note while the envelope shows `live`.
    pub fn note_on(&mut self, live: T)
        requires
            old(self).wf(),
        ensures
            *final(self) == old(self).noted_on(live),
            final(self).wf(),
    {
        let retriggered = self.phase != EnvelopePhase::Off;
        if retriggered {
            self.from = live;
        } else {
            self.from = self.levels.zero;
        }
        self.retriggered = retriggered;
        self.phase = self.times.settle_from(EnvelopePhase::Attack);
        self.elapsed = 0;
    }

    /// Ends the note while the envelope shows `live`.
    pub fn note_off(&mut self, live: T)
        requires
            old(self).wf(),
        ensures
            *final(self) == old(self).noted_off(live),
            final(self).wf(),
    {
        if self.phase != EnvelopePhase::Off {
            self.from = live;
            self.phase = self.times.settle_from(EnvelopePhase::Release);
            self.elapsed = 0;
        }
    }

    /// What the envelope shows now. A ramp's index always lies below its count.
    pub fn value(&self) -> (r: EnvelopeValue<T>)
        requires
            self.wf(),
        ensures
            r == self.shown(),
            r matches EnvelopeValue::Ramp(_, step) ==> step.index < step.count,
    {
        match self.phase {
            EnvelopePhase::Attack => EnvelopeValue::Ramp(
                if self.retriggered {
                    RampKind::Retrigger
                } else {
                    RampKind::Attack
                },
                LerpStep {
                    start: self.from,
                    end: self.levels.one,
                    index: self.elapsed,
                    count: self.times.attack,
                },
            ),
            EnvelopePhase::Hold => EnvelopeValue::Constant(self.levels.one),
            EnvelopePhase::Decay => EnvelopeValue::Ramp(
                RampKind::Decay,
                LerpStep {
                    start: self.levels.one,
                    end: self.levels.sustain,
                    index: self.elapsed,
                    count: self.times.decay,
                },
            ),
            EnvelopePhase::Sustain => EnvelopeValue::Constant(self.levels.sustain),
            EnvelopePhase::Release => EnvelopeValue::Ramp(
                RampKind::Release,
                LerpStep {
                    start: self.from,
                    end: self.levels.zero,
                    index: self.elapsed,
                    count: self.times.release,
                },
            ),
            EnvelopePhase::Off => EnvelopeValue::Constant(self.levels.zero),
        }
    }
}

/// Time passing changes neither the stage lengths nor the levels.
proof fn lemma_ticks_keep_setup<T: Copy>(e: Envelope<T>, n: nat)
    ensures
        e.ticks(n).times == e.times,
        e.ticks(n).levels == e.levels,
    decreases n,
{
    if n > 0 {
        lemma_ticks_keep_setup(e.ticked(), (n - 1) as nat);
    }
}

/// A silent envelope stays silent while time passes.
proof fn lemma_off_stays_off<T: Copy>(e: Envelope<T>, n: nat)
    requires
        e.phase == EnvelopePhase::Off,
    ensures
        e.ticks(n) == e,
    decreases n,
{
    if n > 0 {
        lemma_off_stays_off(e.ticked(), (n - 1) as nat);
    }
}

/// A release that is given at least the samples it has left ends in silence.
proof fn lemma_release_runs_out<T: Copy>(e: Envelope<T>, n: nat)
    requires
        e.wf(),
        e.phase == EnvelopePhase::Release,
        e.elapsed + n >= e.times.release,
    ensures
        e.ticks(n).phase == EnvelopePhase::Off,
    decreases n,
{
    let t = e.ticked();
    if e.elapsed + 1 < e.times.release {
        lemma_release_runs_out(t, (n - 1) as nat);
    } else {
        assert(t.phase == e.times.settle(EnvelopePhase::Off));
        lemma_off_stays_off(t, (n - 1) as nat);
    }
}

/// The stages a note passes through before it is released.
pub open spec fn is_rising(phase: EnvelopePhase) -> bool {
    match phase {
        EnvelopePhase::Release | EnvelopePhase::Off => false,
        _ => true,
    }
}

impl EnvelopeTimes {
    /// How many samples an envelope that has spent `elapsed` samples in `phase` needs to
    /// reach sustain.
    pub open spec fn rise_left(self, phase: EnvelopePhase, elapsed: int) -> int {
        match phase {
            EnvelopePhase::Attack => (self.attack - elapsed) + self.hold + self.decay,
            EnvelopePhase::Hold => (self.hold - elapsed) + self.decay,
            EnvelopePhase::Decay => self.decay - elapsed,
            _ => 0,
        }
    }
}

/// The stage an envelope settles in has samples to run, if it is timed at all.
proof fn lemma_settle_lands(times: EnvelopeTimes, phase: EnvelopePhase)
    ensures
        is_timed(times.settle(phase)) ==> times.length(times.settle(phase)) > 0,
    decreases phase_rank(phase),
{
    if is_timed(phase) && times.length(phase) == 0 {
        lemma_settle_lands(times, next_phase(phase));
    }
}

/// A stage entered on the way to sustain has all of its own length and the later stages'
/// lengths still to run.
proof fn lemma_settle_towards_sustain(times: EnvelopeTimes, phase: EnvelopePhase)
    requires
        is_rising(phase),
    ensures
        is_rising(times.settle(phase)),
        times.rise_left(times.settle(phase), 0) == times.rise_left(phase, 0),
    decreases phase_rank(phase),
{
    if is_timed(phase) && times.length(phase) == 0 {
        lemma_settle_towards_sustain(times, next_phase(phase));
    }
}

/// An envelope rising towards sustain gets there once it is given the samples it needs.
proof fn lemma_rise_reaches_sustain<T: Copy>(e: Envelope<T>, n: nat)
    requires
        e.wf(),
        is_rising(e.phase),
        n >= e.times.rise_left(e.phase, e.elapsed as int),
    ensures
        e.ticks(n).phase == EnvelopePhase::Sustain,
    decreases n,
{
    if e.phase == EnvelopePhase::Sustain {
        lemma_sustain_stays(e, n);
    } else {
        let t = e.ticked();
        if e.elapsed + 1 >= e.times.length(e.phase) {
            lemma_settle_towards_sustain(e.times, next_phase(e.phase));
            lemma_settle_lands(e.times, next_phase(e.phase));
        }
        lemma_rise_reaches_sustain(t, (n - 1) as nat);
    }
}

/// Time does not move an envelope out of sustain.
proof fn lemma_sustain_stays<T: Copy>(e: Envelope<T>, n: nat)
    requires
        e.phase == EnvelopePhase::Sustain,
    ensures
        e.ticks(n) == e,
    decreases n,
{
    if n > 0 {
        lemma_sustain_stays(e.ticked(), (n - 1) as nat);
    }
}

/// A note held for at least the attack, hold and decay lengths together reaches the sustain
/// stage and shows the sustain level, whatever state the envelope was in when it started.
pub proof fn lemma_note_reaches_sustain<T: Copy>(e: Envelope<T>, live: T, n: nat)
    requires
        e.wf(),
        n >= e.times.attack + e.times.hold + e.times.decay,
    ensures
        e.noted_on(live).ticks(n).phase == EnvelopePhase::Sustain,
        e.noted_on(live).ticks(n).shown() == EnvelopeValue::Constant(e.levels.sustain),
{
    let a = e.noted_on(live);
    lemma_settle_towards_sustain(e.times, EnvelopePhase::Attack);
    lemma_settle_lands(e.times, EnvelopePhase::Attack);
    lemma_rise_reaches_sustain(a, n);
    lemma_ticks_keep_setup(a, n);
}

/// A note that is played, held for any number of samples and then released brings the
/// envelope back to exactly its zero level, and to silence, once the release has run its
/// length: whatever the stage lengths (zero included), the sustain level, and the levels the
/// envelope showed when the note started and ended.
pub proof fn lemma_release_returns_to_zero<T: Copy>(
    times: EnvelopeTimes,
    levels: EnvelopeLevels<T>,
    held: nat,
    live_on: T,
    live_off: T,
)
    ensures
        ({
            let e = Envelope::initial(times, levels).noted_on(live_on).ticks(held).noted_off(
                live_off,
            ).ticks(times.release as nat);
            &&& e.phase == EnvelopePhase::Off
            &&& e.shown() == EnvelopeValue::Constant(levels.zero)
        }),
{
    let a = Envelope::initial(times, levels).noted_on(live_on);
    let b = a.ticks(held);
    lemma_ticks_keep_setup(a, held);
    let c = b.noted_off(live_off);
    let d = c.ticks(times.release as nat);
    lemma_ticks_keep_setup(c, times.release as nat);
    if b.phase == EnvelopePhase::Off {
        lemma_off_stays_off(c, times.release as nat);
    } else if times.release == 0 {
        assert(times.settle(EnvelopePhase::Release) == times.settle(EnvelopePhase::Off));
        lemma_off_stays_off(c, times.release as nat);
    } else {
        lemma_release_runs_out(c, times.release as nat);
    }
}

} // verus!
