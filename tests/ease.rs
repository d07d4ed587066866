use meow_synth::ease::{DiscreteLinear, SteppedLinear};

fn bucket(raw: f32, n: usize) -> usize {
    (raw * n as f32) as usize
}

fn step(raw: f32, run: &SteppedLinear) -> usize {
    (raw * (run.steps - 1) as f32).round() as usize
}

#[test]
fn discrete_four_values_ends() {
    let easer = DiscreteLinear {
        values: vec![10u8, 20, 30, 40],
    };
    assert_eq!(easer.ease_bucket(bucket(0.99, 4)), 40);
    assert_eq!(easer.ease_bucket(bucket(0.0, 4)), 10);
    assert_eq!(easer.ease_bucket(bucket(1.0, 4)), 40);
    assert_eq!(easer.ease_bucket(bucket(0.3, 4)), 20);
    assert_eq!(easer.ease_bucket(bucket(0.5, 4)), 30);
}

#[test]
fn discrete_never_reads_past_the_end() {
    let easer = DiscreteLinear {
        values: vec!['a', 'b', 'c', 'd'],
    };
    for i in 0..=100 {
        let raw = i as f32 / 100.0;
        let _ = easer.ease_bucket(bucket(raw, 4));
    }
    assert_eq!(easer.ease_bucket(usize::MAX), 'd');
}

#[test]
fn stepped_semitones_snap_to_whole_values() {
    let run = SteppedLinear {
        start: -24,
        end: 24,
        steps: 49,
    };
    assert_eq!(run.ease_step(step(0.5, &run)), 0);
    assert_eq!(run.ease_step(step(0.0, &run)), -24);
    assert_eq!(run.ease_step(step(1.0, &run)), 24);
    assert_eq!(run.ease_step(step(0.26, &run)), -12);
}

#[test]
fn stepped_index_past_end_gives_end() {
    let run = SteppedLinear {
        start: 1,
        end: 12,
        steps: 13,
    };
    assert_eq!(run.ease_step(12), 12);
    assert_eq!(run.ease_step(1000), 12);
    assert_eq!(run.ease_step(0), 1);
    assert_eq!(run.ease_step(6), 6);
}

#[test]
fn stepped_downward_run() {
    let run = SteppedLinear {
        start: 10,
        end: -10,
        steps: 5,
    };
    let points: Vec<i32> = (0..5).map(|k| run.ease_step(k)).collect();
    assert_eq!(points, vec![10, 5, 0, -5, -10]);
}

#[test]
fn stepped_single_step_stays_at_start() {
    let run = SteppedLinear {
        start: 7,
        end: 9,
        steps: 1,
    };
    assert_eq!(run.ease_step(0), 7);
    assert_eq!(run.ease_step(5), 7);
}

#[test]
fn stepped_extreme_range_does_not_overflow() {
    let run = SteppedLinear {
        start: i32::MIN,
        end: i32::MAX,
        steps: usize::MAX,
    };
    assert_eq!(run.ease_step(0), i32::MIN);
    assert_eq!(run.ease_step(usize::MAX), i32::MAX);
}
