use songwalker_core::schedule::admit_block_notes;
use songwalker_core::schedule::last_property_index;
use songwalker_core::schedule::releases_in_block;
use songwalker_core::schedule::choose_voice_source;
use songwalker_core::schedule::BlockCursor;
use songwalker_core::schedule::PresetLookup;
use songwalker_core::schedule::VoiceSource;
use songwalker_core::schedule::sorted_start_order;
use songwalker_core::schedule::total_output_samples;
use songwalker_core::schedule::EndMode;
use songwalker_core::schedule::PropertyEvent;
use songwalker_core::schedule::ScheduledSpan;

fn span(start: usize, release: usize, release_len: usize) -> ScheduledSpan {
    ScheduledSpan { start_sample: start, release_sample: release, release_len }
}

#[test]
fn end_mode_default_is_tail() {
    assert_eq!(EndMode::default(), EndMode::Tail);
}

#[test]
fn total_samples_gate_mode() {
    // One note: 1 beat at 120 BPM and 44100 Hz holds its gate for 22050
    // samples, and the beat cursor ends there too.
    let spans = vec![span(0, 22050, 13230)];
    assert_eq!(total_output_samples(EndMode::Gate, 22050, &spans, 22050), 22050);
    // The cursor floors the length when it runs past the notes.
    assert_eq!(total_output_samples(EndMode::Gate, 44100, &spans, 22050), 44100);
    // No notes at all: the cursor alone decides.
    assert_eq!(total_output_samples(EndMode::Gate, 22050, &vec![], 22050), 22050);
}

#[test]
fn total_samples_release_mode() {
    // Release mode waits for the envelope release after the latest gate.
    let spans = vec![span(0, 22050, 13230), span(0, 10000, 1000)];
    assert_eq!(total_output_samples(EndMode::Release, 0, &spans, 22050), 35280);
}

#[test]
fn total_samples_tail_mode() {
    // Tail mode adds the effects tail on top of the release.
    let spans = vec![span(0, 22050, 13230)];
    assert_eq!(total_output_samples(EndMode::Tail, 0, &spans, 22050), 57330);
}

#[test]
fn end_mode_gate_vs_tail() {
    // The same note content renders strictly longer in Tail mode than in
    // Gate mode.
    let spans = vec![span(0, 22050, 13230)];
    let gate_len = total_output_samples(EndMode::Gate, 22050, &spans, 22050);
    let tail_len = total_output_samples(EndMode::Tail, 22050, &spans, 22050);
    assert!(
        tail_len > gate_len,
        "Tail ({tail_len}) should be longer than Gate ({gate_len})"
    );
}

#[test]
fn admit_within_cap() {
    let spans = vec![span(0, 100, 0), span(50, 150, 0), span(200, 300, 0)];
    let (next, started) = admit_block_notes(&spans, 0, 128, 0, 64);
    assert_eq!(next, 2);
    assert_eq!(started, vec![0, 1]);
    // The remaining note starts in a later block.
    let (next2, started2) = admit_block_notes(&spans, next, 256, 2, 64);
    assert_eq!(next2, 3);
    assert_eq!(started2, vec![2]);
}

#[test]
fn admit_drops_notes_over_cap() {
    // Three candidates, room for one: the excess notes are dropped, not
    // queued — the scan index still moves past them.
    let spans = vec![span(0, 100, 0), span(1, 100, 0), span(2, 100, 0)];
    let (next, started) = admit_block_notes(&spans, 0, 128, 63, 64);
    assert_eq!(next, 3);
    assert_eq!(started, vec![0]);
    // At the cap, nothing is admitted.
    let (next, started) = admit_block_notes(&spans, 0, 128, 64, 64);
    assert_eq!(next, 3);
    assert!(started.is_empty());
}

#[test]
fn block_cursor_covers_the_output() {
    // 300 samples in blocks of 128: two full blocks and a short last one.
    let mut cursor = BlockCursor::new(128, 300);
    assert_eq!(cursor.next_block(), Some((0, 128)));
    assert_eq!(cursor.next_block(), Some((128, 256)));
    assert_eq!(cursor.next_block(), Some((256, 300)));
    assert_eq!(cursor.next_block(), None);
    let mut empty = BlockCursor::new(128, 0);
    assert_eq!(empty.next_block(), None);
}

#[test]
fn voice_source_fallback_rule() {
    // No reference, a missing preset, an uncovered note and an empty
    // composite trigger all fall back to the oscillator.
    assert_eq!(choose_voice_source(PresetLookup::NoRef), VoiceSource::Oscillator);
    assert_eq!(choose_voice_source(PresetLookup::Missing), VoiceSource::Oscillator);
    assert_eq!(choose_voice_source(PresetLookup::Sampler(None)), VoiceSource::Oscillator);
    assert_eq!(choose_voice_source(PresetLookup::Composite(0)), VoiceSource::Oscillator);
    // A covering zone and a non-empty trigger are served by their preset.
    assert_eq!(choose_voice_source(PresetLookup::Sampler(Some(3))), VoiceSource::SamplerZone(3));
    assert_eq!(choose_voice_source(PresetLookup::Composite(2)), VoiceSource::CompositeGroup);
}

#[test]
fn release_falls_in_block() {
    assert!(releases_in_block(128, 128, 256));
    assert!(releases_in_block(255, 128, 256));
    assert!(!releases_in_block(256, 128, 256));
    assert!(!releases_in_block(127, 128, 256));
}

#[test]
fn schedule_order_sorts_by_start() {
    let spans = vec![span(500, 600, 0), span(0, 100, 0), span(250, 300, 7)];
    assert_eq!(sorted_start_order(&spans), vec![1, 2, 0]);
}

#[test]
fn schedule_order_is_stable() {
    // Notes with the same start sample keep their event order.
    let spans = vec![span(9, 1, 1), span(9, 2, 2), span(3, 0, 0), span(9, 1, 1)];
    assert_eq!(sorted_start_order(&spans), vec![2, 0, 1, 3]);
    assert_eq!(sorted_start_order(&vec![]), Vec::<usize>::new());
}

#[test]
fn preset_refs_dedup_keeps_first_occurrences() {
    let names: Vec<String> = ["piano", "strings", "piano", "brass", "strings"]
        .iter()
        .map(|s| s.to_string())
        .collect();
    let unique = songwalker_core::schedule::dedup_preset_refs(&names);
    assert_eq!(unique, vec!["piano", "strings", "brass"]);
    assert!(songwalker_core::schedule::dedup_preset_refs(&vec![]).is_empty());
}

fn prop(target: &str, value: &str) -> PropertyEvent {
    PropertyEvent { target: target.to_string(), value: value.to_string() }
}

#[test]
fn last_property_wins_in_event_order() {
    // Whichever value is emitted last wins over the whole stream.
    let props = vec![
        prop("track.beatsPerMinute", "120"),
        prop("track.tuningPitch", "432"),
        prop("track.beatsPerMinute", "90"),
    ];
    let i = last_property_index(&props, "track.beatsPerMinute").unwrap();
    assert_eq!(i, 2);
    assert_eq!(props[i].value, "90");
    let j = last_property_index(&props, "track.tuningPitch").unwrap();
    assert_eq!(props[j].value, "432");
    assert_eq!(last_property_index(&props, "track.swing"), None);
}
