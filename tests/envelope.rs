use polysynth::envelope::{EnvelopeStages, EnvelopeState, Segment};

#[test]
fn test_envelope_starts_idle() {
    let env = EnvelopeStages::new(441, 4410, 13230);
    assert!(!env.is_active());
}

#[test]
fn test_note_on_triggers_attack() {
    let mut env = EnvelopeStages::new(441, 4410, 13230);
    env.note_on();
    assert!(env.is_active());
    assert!(matches!(env.state, EnvelopeState::Attack { .. }));
}

#[test]
fn test_attack_ramps_up() {
    let mut env = EnvelopeStages::new(4410, 4410, 13230);
    env.note_on();
    let s1 = env.next_segment();
    let s2 = env.next_segment();
    assert_eq!(s1, Segment::Rising { elapsed: 0, total: 4410 });
    assert_eq!(s2, Segment::Rising { elapsed: 1, total: 4410 });
}

#[test]
fn full_cycle_of_stages() {
    let mut env = EnvelopeStages::new(2, 3, 2);
    env.note_on();
    assert_eq!(env.next_segment(), Segment::Rising { elapsed: 0, total: 2 });
    assert_eq!(env.next_segment(), Segment::Rising { elapsed: 1, total: 2 });
    assert_eq!(env.next_segment(), Segment::Peak);
    assert_eq!(env.next_segment(), Segment::Falling { elapsed: 1, total: 3 });
    assert_eq!(env.next_segment(), Segment::Falling { elapsed: 2, total: 3 });
    assert_eq!(env.next_segment(), Segment::Sustaining);
    assert_eq!(env.next_segment(), Segment::Sustaining);
    env.note_off();
    assert_eq!(env.next_segment(), Segment::Releasing { elapsed: 0, total: 2 });
    assert_eq!(env.next_segment(), Segment::Releasing { elapsed: 1, total: 2 });
    assert!(env.is_active());
    assert_eq!(env.next_segment(), Segment::Silent);
    assert!(!env.is_active());
    assert_eq!(env.next_segment(), Segment::Silent);
}

#[test]
fn inactive_within_release_plus_one_after_note_off() {
    let release = 13230u64;
    let mut env = EnvelopeStages::new(441, 4410, release);
    env.note_on();
    for _ in 0..100 {
        env.next_segment();
    }
    env.note_off();
    for _ in 0..release {
        env.next_segment();
        assert!(env.is_active());
    }
    env.next_segment();
    assert!(!env.is_active());
}

#[test]
fn zero_length_stages_pass_at_once() {
    let mut env = EnvelopeStages::new(0, 0, 0);
    env.note_on();
    assert_eq!(env.next_segment(), Segment::Peak);
    assert_eq!(env.next_segment(), Segment::Sustaining);
    env.note_off();
    assert_eq!(env.next_segment(), Segment::Silent);
    assert!(!env.is_active());
}

#[test]
fn reset_and_new_times() {
    let mut env = EnvelopeStages::new(10, 10, 10);
    env.note_on();
    env.set_times(1, 2, 3);
    assert_eq!(env.release_samples, 3);
    assert_eq!(env.next_segment(), Segment::Rising { elapsed: 0, total: 1 });
    env.reset();
    assert!(!env.is_active());
}

#[test]
fn note_off_on_idle_envelope_stays_idle() {
    let mut env = EnvelopeStages::new(441, 4410, 13230);
    env.note_off();
    assert!(!env.is_active());
    assert_eq!(env.state, EnvelopeState::Idle);
    assert_eq!(env.next_segment(), Segment::Silent);
    env.note_on();
    env.reset();
    env.note_off();
    assert!(!env.is_active());
}
