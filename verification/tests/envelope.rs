use songwalker_core::envelope::EnvelopeClock;
use songwalker_core::envelope::EnvelopeStep;

#[test]
fn envelope_full_cycle() {
    // Attack 3 samples, decay 2, release 4: the clock walks
    // Idle -> Attack -> Decay -> Sustain -> Release -> Idle.
    let mut clock = EnvelopeClock::new(3, 2, 4);
    assert!(clock.is_finished());

    clock.gate_on();
    assert!(!clock.is_finished());
    assert_eq!(clock.tick(), EnvelopeStep::AttackRamp { num: 0, den: 3 });
    assert_eq!(clock.tick(), EnvelopeStep::AttackRamp { num: 1, den: 3 });
    assert_eq!(clock.tick(), EnvelopeStep::AttackPeak);
    assert_eq!(clock.tick(), EnvelopeStep::DecayRamp { num: 0, den: 2 });
    assert_eq!(clock.tick(), EnvelopeStep::SustainHold);
    // Sustain holds until the note is released.
    assert_eq!(clock.tick(), EnvelopeStep::SustainHold);
    assert!(!clock.is_finished());

    clock.gate_off();
    assert_eq!(clock.tick(), EnvelopeStep::ReleaseRamp { num: 0, den: 4 });
    assert_eq!(clock.tick(), EnvelopeStep::ReleaseRamp { num: 1, den: 4 });
    assert_eq!(clock.tick(), EnvelopeStep::ReleaseRamp { num: 2, den: 4 });
    assert!(!clock.is_finished());
    assert_eq!(clock.tick(), EnvelopeStep::ReleaseEnd);
    assert!(clock.is_finished());
    assert_eq!(clock.tick(), EnvelopeStep::Quiet);
}

#[test]
fn envelope_zero_length_stages() {
    // Zero-length stages complete in one sample each.
    let mut clock = EnvelopeClock::new(0, 0, 0);
    clock.gate_on();
    assert_eq!(clock.tick(), EnvelopeStep::AttackPeak);
    assert_eq!(clock.tick(), EnvelopeStep::SustainHold);
    clock.gate_off();
    assert_eq!(clock.tick(), EnvelopeStep::ReleaseEnd);
    assert!(clock.is_finished());
}

#[test]
fn envelope_gate_off_while_idle_is_a_no_op() {
    let mut clock = EnvelopeClock::new(5, 5, 5);
    clock.gate_off();
    assert!(clock.is_finished());
    assert_eq!(clock.tick(), EnvelopeStep::Quiet);
}

#[test]
fn envelope_retrigger_restarts_attack() {
    let mut clock = EnvelopeClock::new(4, 4, 4);
    clock.gate_on();
    clock.tick();
    clock.tick();
    // A second gate-on mid-attack restarts the attack stage.
    clock.gate_on();
    assert_eq!(clock.tick(), EnvelopeStep::AttackRamp { num: 0, den: 4 });
}
