use meow_synth::pitchbend::{bends_ok, to_pitch_envelope, LerpStep, PitchEnvelope};

fn lerp(step: &LerpStep<f32>) -> f32 {
    let t = step.index as f32 / step.count as f32;
    step.start + (step.end - step.start) * t
}

fn values(steps: &[LerpStep<f32>]) -> Vec<f32> {
    steps.iter().map(lerp).collect()
}

#[test]
fn no_events_hold_previous_value() {
    let (steps, last) = to_pitch_envelope::<f32>(&[], 0.0, 4);
    assert_eq!(values(&steps), vec![0.0, 0.0, 0.0, 0.0]);
    assert_eq!(last, 0.0);
}

#[test]
fn no_events_hold_nonzero_previous_value() {
    let (steps, last) = to_pitch_envelope::<f32>(&[], -0.5, 3);
    assert_eq!(values(&steps), vec![-0.5, -0.5, -0.5]);
    assert_eq!(last, -0.5);
}

#[test]
fn one_event_ramps_then_holds() {
    let (steps, last) = to_pitch_envelope(&[(1.0f32, 2)], 0.0, 4);
    assert_eq!(steps.len(), 4);
    assert_eq!(values(&steps), vec![0.0, 0.5, 1.0, 1.0]);
    assert_eq!(last, 1.0);
    assert_eq!(
        steps[1],
        LerpStep {
            start: 0.0,
            end: 1.0,
            index: 1,
            count: 2
        }
    );
    assert_eq!(
        steps[3],
        LerpStep {
            start: 1.0,
            end: 1.0,
            index: 1,
            count: 2
        }
    );
}

#[test]
fn event_at_offset_zero_jumps_at_once() {
    let (steps, last) = to_pitch_envelope(&[(0.5f32, 0)], -1.0, 2);
    assert_eq!(values(&steps), vec![0.5, 0.5]);
    assert_eq!(last, 0.5);
}

#[test]
fn event_at_buffer_end_ramps_over_whole_buffer() {
    let (steps, last) = to_pitch_envelope(&[(1.0f32, 4)], 0.0, 4);
    assert_eq!(values(&steps), vec![0.0, 0.25, 0.5, 0.75]);
    assert_eq!(last, 1.0);
}

#[test]
fn several_events_follow_each_segment() {
    let (steps, last) = to_pitch_envelope(&[(1.0f32, 2), (-1.0, 4), (0.0, 5)], 0.0, 6);
    assert_eq!(values(&steps), vec![0.0, 0.5, 1.0, 0.0, -1.0, 0.0]);
    assert_eq!(last, 0.0);
}

#[test]
fn empty_buffer_gives_no_samples_but_carries_last_event() {
    let (steps, last) = to_pitch_envelope(&[(0.25f32, 0)], 0.0, 0);
    assert!(steps.is_empty());
    assert_eq!(last, 0.25);
}

#[test]
fn bends_ok_accepts_ordered_offsets_inside_buffer() {
    assert!(bends_ok::<f32>(&[], 0));
    assert!(bends_ok(&[(1.0f32, 0), (0.5, 0), (0.0, 4)], 4));
}

#[test]
fn bends_ok_refuses_bad_offsets() {
    assert!(!bends_ok(&[(1.0f32, -1)], 4));
    assert!(!bends_ok(&[(1.0f32, 5)], 4));
    assert!(!bends_ok(&[(1.0f32, 3), (0.0, 2)], 4));
    assert!(!bends_ok::<f32>(&[], i32::MAX as usize + 1));
}

#[test]
fn cursor_hands_out_one_step_per_sample_then_stops() {
    let events = [(1.0f32, 2)];
    let mut cursor = PitchEnvelope::new(&events, 0.0, 4);
    assert_eq!(cursor.last_bend(), 1.0);
    let mut seen = Vec::new();
    while let Some(step) = cursor.next_step() {
        seen.push(step);
    }
    assert_eq!(values(&seen), vec![0.0, 0.5, 1.0, 1.0]);
    assert_eq!(cursor.next_step(), None);
    assert_eq!(cursor.pos, 4);
}

#[test]
fn cursor_matches_collected_steps() {
    let events = [(0.5f32, 1), (0.5, 1), (-0.25, 3), (1.0, 7)];
    let (steps, _) = to_pitch_envelope(&events, 0.25, 8);
    let mut cursor = PitchEnvelope::new(&events, 0.25, 8);
    for step in &steps {
        assert_eq!(cursor.next_step(), Some(*step));
    }
    assert_eq!(cursor.next_step(), None);
    assert_eq!(values(&steps), vec![0.25, 0.5, 0.125, -0.25, 0.0625, 0.375, 0.6875, 1.0]);
}
