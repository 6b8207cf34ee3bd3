use songwalker_core::composite::group_finished;
use songwalker_core::composite::split_child_index;
use songwalker_core::composite::triggered_voice_count;
use songwalker_core::composite::CompositeChildKind;
use songwalker_core::composite::CompositeLayout;
use songwalker_core::composite::CompositeMode;
use songwalker_core::preset::KeyRange;

fn sampler_child(low: u8, high: u8) -> CompositeChildKind {
    CompositeChildKind::Sampler(vec![KeyRange { low, high }])
}

#[test]
fn split_index_counts_boundaries() {
    // Split at MIDI 60: notes below go to child 0, the rest to child 1.
    let points = vec![60u8];
    assert_eq!(split_child_index(&points, 50, 2), 0);
    assert_eq!(split_child_index(&points, 60, 2), 1);
    assert_eq!(split_child_index(&points, 72, 2), 1);
}

#[test]
fn split_index_clamps_to_last_child() {
    let points = vec![40u8, 60u8, 80u8];
    // Three boundaries at or below the note, but only two children.
    assert_eq!(split_child_index(&points, 90, 2), 1);
    assert_eq!(split_child_index(&points, 0, 2), 0);
}

#[test]
fn layer_mode_fans_out_to_every_child() {
    // A Layer composite with two covering children produces two voices.
    let layout = CompositeLayout {
        mode: CompositeMode::Layer,
        children: vec![sampler_child(0, 127), sampler_child(0, 127)],
        split_points: None,
    };
    assert_eq!(triggered_voice_count(&layout, 60), 2);
}

#[test]
fn layer_mode_skips_uncovered_children() {
    let layout = CompositeLayout {
        mode: CompositeMode::Layer,
        children: vec![
            CompositeChildKind::Oscillator,
            sampler_child(0, 59),
            sampler_child(61, 127),
        ],
        split_points: None,
    };
    // The oscillator always sounds; neither sampler covers MIDI 60.
    assert_eq!(triggered_voice_count(&layout, 60), 1);
}

#[test]
fn split_mode_probes_children_in_order() {
    // Without split points, the first child that produces voices wins.
    let layout = CompositeLayout {
        mode: CompositeMode::Split,
        children: vec![sampler_child(0, 60), sampler_child(61, 127)],
        split_points: None,
    };
    assert_eq!(triggered_voice_count(&layout, 60), 1);
    assert_eq!(triggered_voice_count(&layout, 72), 1);
    let uncovered = CompositeLayout {
        mode: CompositeMode::Split,
        children: vec![sampler_child(0, 10), sampler_child(20, 30)],
        split_points: None,
    };
    assert_eq!(triggered_voice_count(&uncovered, 15), 0);
}

#[test]
fn split_mode_routes_by_explicit_points() {
    let layout = CompositeLayout {
        mode: CompositeMode::Split,
        children: vec![sampler_child(0, 127), sampler_child(64, 127)],
        split_points: Some(vec![60]),
    };
    // Note 50 routes to child 0 (covered), note 62 to child 1 (not covered).
    assert_eq!(triggered_voice_count(&layout, 50), 1);
    assert_eq!(triggered_voice_count(&layout, 62), 0);
    assert_eq!(triggered_voice_count(&layout, 72), 1);
}

#[test]
fn chain_mode_uses_first_child_only() {
    let layout = CompositeLayout {
        mode: CompositeMode::Chain,
        children: vec![CompositeChildKind::Oscillator, CompositeChildKind::Oscillator],
        split_points: None,
    };
    assert_eq!(triggered_voice_count(&layout, 60), 1);
}

#[test]
fn group_finished_needs_every_sub_voice() {
    // One live sub-voice keeps the whole group alive.
    assert!(!group_finished(&vec![true, false, true]));
    assert!(group_finished(&vec![true, true]));
    assert!(group_finished(&vec![]));
}

#[test]
fn nested_composite_recurses() {
    let inner = CompositeLayout {
        mode: CompositeMode::Layer,
        children: vec![sampler_child(0, 127), CompositeChildKind::Oscillator],
        split_points: None,
    };
    let outer = CompositeLayout {
        mode: CompositeMode::Layer,
        children: vec![
            CompositeChildKind::Composite(Box::new(inner)),
            CompositeChildKind::Oscillator,
        ],
        split_points: None,
    };
    assert_eq!(triggered_voice_count(&outer, 60), 3);
}
