use songwalker_core::preset::KeyRange;
use songwalker_core::sampler::find_zone_index;
use songwalker_core::sampler::SamplerEnvelopeClock;
use songwalker_core::sampler::SamplerEnvelopeStep;

#[test]
fn find_zone_picks_first_match() {
    let zones = vec![
        KeyRange { low: 0, high: 60 },
        KeyRange { low: 50, high: 127 },
    ];
    assert_eq!(find_zone_index(&zones, 55), Some(0));
    assert_eq!(find_zone_index(&zones, 61), Some(1));
    assert_eq!(find_zone_index(&vec![KeyRange { low: 10, high: 20 }], 21), None);
    assert_eq!(find_zone_index(&vec![], 60), None);
}

#[test]
fn sampler_envelope_walks_its_stages() {
    // Counting is one-based: an attack of 3 samples ramps at 1/3 and 2/3
    // and peaks on the third sample.
    let mut clock = SamplerEnvelopeClock::new(3, 2, 3);
    assert!(!clock.is_done());
    clock.note_on();
    assert_eq!(clock.tick(), SamplerEnvelopeStep::AttackRamp { num: 1, den: 3 });
    assert_eq!(clock.tick(), SamplerEnvelopeStep::AttackRamp { num: 2, den: 3 });
    assert_eq!(clock.tick(), SamplerEnvelopeStep::AttackPeak);
    assert_eq!(clock.tick(), SamplerEnvelopeStep::DecayRamp { num: 1, den: 2 });
    assert_eq!(clock.tick(), SamplerEnvelopeStep::SustainHold);
    assert_eq!(clock.tick(), SamplerEnvelopeStep::SustainHold);
    clock.note_off();
    assert_eq!(clock.tick(), SamplerEnvelopeStep::ReleaseRamp { num: 1, den: 3 });
    assert_eq!(clock.tick(), SamplerEnvelopeStep::ReleaseRamp { num: 2, den: 3 });
    assert!(!clock.is_done());
    assert_eq!(clock.tick(), SamplerEnvelopeStep::ReleaseEnd);
    // A spent sampler envelope stays spent.
    assert!(clock.is_done());
    assert_eq!(clock.tick(), SamplerEnvelopeStep::Quiet);
    clock.note_off();
    assert!(clock.is_done());
}
