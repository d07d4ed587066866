use meow_synth::envelope::{
    Envelope, EnvelopeLevels, EnvelopePhase, EnvelopeTimes, EnvelopeValue, RampKind,
};
use meow_synth::pitchbend::LerpStep;

fn levels() -> EnvelopeLevels<i32> {
    EnvelopeLevels {
        zero: 0,
        one: 100,
        sustain: 40,
    }
}

fn ramp(kind: RampKind, start: i32, end: i32, index: usize, count: usize) -> EnvelopeValue<i32> {
    EnvelopeValue::Ramp(
        kind,
        LerpStep {
            start,
            end,
            index,
            count,
        },
    )
}

#[test]
fn new_envelope_is_silent() {
    let times = EnvelopeTimes {
        attack: 2,
        hold: 1,
        decay: 2,
        release: 3,
    };
    let mut env = Envelope::new(times, levels());
    assert_eq!(env.phase, EnvelopePhase::Off);
    assert_eq!(env.value(), EnvelopeValue::Constant(0));
    env.tick();
    assert_eq!(env.value(), EnvelopeValue::Constant(0));
}

#[test]
fn full_note_walks_every_stage() {
    let times = EnvelopeTimes {
        attack: 2,
        hold: 1,
        decay: 2,
        release: 3,
    };
    let mut env = Envelope::new(times, levels());
    env.note_on(0);
    let mut seen = Vec::new();
    for _ in 0..7 {
        seen.push((env.phase, env.value()));
        env.tick();
    }
    assert_eq!(
        seen,
        vec![
            (EnvelopePhase::Attack, ramp(RampKind::Attack, 0, 100, 0, 2)),
            (EnvelopePhase::Attack, ramp(RampKind::Attack, 0, 100, 1, 2)),
            (EnvelopePhase::Hold, EnvelopeValue::Constant(100)),
            (EnvelopePhase::Decay, ramp(RampKind::Decay, 100, 40, 0, 2)),
            (EnvelopePhase::Decay, ramp(RampKind::Decay, 100, 40, 1, 2)),
            (EnvelopePhase::Sustain, EnvelopeValue::Constant(40)),
            (EnvelopePhase::Sustain, EnvelopeValue::Constant(40)),
        ]
    );
    env.note_off(40);
    let mut released = Vec::new();
    for _ in 0..4 {
        released.push(env.value());
        env.tick();
    }
    assert_eq!(
        released,
        vec![
            ramp(RampKind::Release, 40, 0, 0, 3),
            ramp(RampKind::Release, 40, 0, 1, 3),
            ramp(RampKind::Release, 40, 0, 2, 3),
            EnvelopeValue::Constant(0),
        ]
    );
    assert_eq!(env.phase, EnvelopePhase::Off);
}

#[test]
fn zero_length_stages_are_skipped() {
    let times = EnvelopeTimes {
        attack: 0,
        hold: 0,
        decay: 0,
        release: 0,
    };
    let mut env = Envelope::new(times, levels());
    env.note_on(0);
    assert_eq!(env.phase, EnvelopePhase::Sustain);
    assert_eq!(env.value(), EnvelopeValue::Constant(40));
    env.note_off(40);
    assert_eq!(env.phase, EnvelopePhase::Off);
    assert_eq!(env.value(), EnvelopeValue::Constant(0));
}

#[test]
fn release_with_sustain_at_zero_ends_exactly_at_zero() {
    let lv = EnvelopeLevels {
        zero: -70.0f32,
        one: 0.0,
        sustain: -70.0,
    };
    for attack in 0..3usize {
        for hold in 0..2usize {
            for decay in 0..3usize {
                for release in 0..3usize {
                    let times = EnvelopeTimes {
                        attack,
                        hold,
                        decay,
                        release,
                    };
                    let mut env = Envelope::new(times, lv);
                    env.note_on(-70.0);
                    for _ in 0..(attack + hold + decay) {
                        env.tick();
                    }
                    assert_eq!(env.phase, EnvelopePhase::Sustain);
                    env.note_off(-70.0);
                    for _ in 0..release {
                        env.tick();
                    }
                    assert_eq!(env.phase, EnvelopePhase::Off);
                    assert_eq!(env.value(), EnvelopeValue::Constant(-70.0));
                }
            }
        }
    }
}

#[test]
fn retrigger_rises_from_live_level() {
    let times = EnvelopeTimes {
        attack: 4,
        hold: 0,
        decay: 1,
        release: 4,
    };
    let mut env = Envelope::new(times, levels());
    env.note_on(0);
    env.tick();
    env.note_off(25);
    env.tick();
    assert_eq!(env.value(), ramp(RampKind::Release, 25, 0, 1, 4));
    env.note_on(18);
    assert!(env.retriggered);
    assert_eq!(env.value(), ramp(RampKind::Retrigger, 18, 100, 0, 4));
}

#[test]
fn note_off_on_silent_envelope_changes_nothing() {
    let times = EnvelopeTimes {
        attack: 1,
        hold: 1,
        decay: 1,
        release: 1,
    };
    let mut env = Envelope::new(times, levels());
    let before = env;
    env.note_off(55);
    assert_eq!(env.phase, before.phase);
    assert_eq!(env.from, before.from);
    assert_eq!(env.value(), EnvelopeValue::Constant(0));
}

#[test]
fn attack_from_silence_is_not_a_retrigger() {
    let times = EnvelopeTimes {
        attack: 3,
        hold: 0,
        decay: 0,
        release: 0,
    };
    let mut env = Envelope::new(times, levels());
    env.note_on(77);
    assert!(!env.retriggered);
    assert_eq!(env.value(), ramp(RampKind::Attack, 0, 100, 0, 3));
}
