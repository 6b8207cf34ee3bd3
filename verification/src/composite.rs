//! Composite instruments: multi-child combination by layering, key split
//! or chaining.
//!
//! This module models which sub-voices a composite triggers for a note.
//! A `Layer` composite triggers every child; a `Split` composite routes the
//! note to one child, either by explicit split points or by probing for the
//! first child that covers the note; `Chain` currently plays its first
//! child only. The voices themselves are floating-point state and live in
//! the signal path; everything counted or selected here is verified.

use vstd::prelude::*;

use crate::preset::KeyRange;
use crate::sampler::any_zone_covers;

verus! {

/// Mode of combination for composite children.
#[derive(Debug, Clone, Copy, PartialEq, Eq, Structural)]
pub enum CompositeMode {
    /// All children play simultaneously.
    Layer,
    /// Route notes by MIDI key range.
    Split,
    /// Audio passes through in series (effects chain).
    Chain,
}

/// A child of a composite instrument, reduced to what routing reads:
/// an oscillator always sounds, a sampler sounds where a zone covers the
/// note, and a nested composite recurses.
pub enum CompositeChildKind {
    /// An oscillator child; it produces one voice for any note.
    Oscillator,
    /// A sampler child with the key ranges of its zones.
    Sampler(Vec<KeyRange>),
    /// A nested composite.
    Composite(Box<CompositeLayout>),
}

/// The routing-relevant part of a composite instrument.
pub struct CompositeLayout {
    pub mode: CompositeMode,
    pub children: Vec<CompositeChildKind>,
    /// Split points (MIDI note boundaries) for Split mode.
    pub split_points: Option<Vec<u8>>,
}

/// How many boundaries are at or below the note.
pub open spec fn boundaries_at_or_below(points: Seq<u8>, midi_note: u8) -> nat
    decreases points.len(),
{
    if points.len() == 0 {
        0
    } else {
        boundaries_at_or_below(points.drop_last(), midi_note) + if points.last() <= midi_note {
            1nat
        } else {
            0nat
        }
    }
}

/// The child index a Split composite with explicit split points routes the
/// note to: the number of boundaries at or below the note, clamped to the
/// last child.
pub open spec fn split_index_spec(points: Seq<u8>, midi_note: u8, n_children: int) -> int {
    let c = boundaries_at_or_below(points, midi_note) as int;
    if c > n_children - 1 {
        n_children - 1
    } else {
        c
    }
}

/// How many sub-voices one child triggers for the note.
pub open spec fn child_voice_count(c: CompositeChildKind, midi_note: u8) -> nat
    decreases c,
{
    match c {
        CompositeChildKind::Oscillator => 1,
        CompositeChildKind::Sampler(zones) => if any_zone_covers(zones@, midi_note) {
            1nat
        } else {
            0nat
        },
        CompositeChildKind::Composite(inner) => layout_voice_count(*inner, midi_note),
    }
}

/// Sum of the sub-voices all children of a Layer composite trigger.
pub open spec fn layer_voice_sum(cs: Seq<CompositeChildKind>, midi_note: u8) -> nat
    decreases cs,
{
    if cs.len() == 0 {
        0
    } else {
        layer_voice_sum(cs.drop_last(), midi_note) + child_voice_count(cs.last(), midi_note)
    }
}

/// The sub-voices of the first child that triggers any, for a Split
/// composite without explicit split points.
pub open spec fn first_covering_count(cs: Seq<CompositeChildKind>, midi_note: u8) -> nat
    decreases cs,
{
    if cs.len() == 0 {
        0
    } else if child_voice_count(cs.first(), midi_note) > 0 {
        child_voice_count(cs.first(), midi_note)
    } else {
        first_covering_count(cs.drop_first(), midi_note)
    }
}

/// How many sub-voices the composite triggers for the note.
pub open spec fn layout_voice_count(s: CompositeLayout, midi_note: u8) -> nat
    decreases s,
{
    match s.mode {
        CompositeMode::Layer => layer_voice_sum(s.children@, midi_note),
        CompositeMode::Split => match s.split_points {
            Some(points) => if s.children@.len() == 0 {
                0nat
            } else {
                child_voice_count(
                    s.children@[split_index_spec(points@, midi_note, s.children@.len() as int)],
                    midi_note,
                )
            },
            None => first_covering_count(s.children@, midi_note),
        },
        CompositeMode::Chain => if s.children@.len() == 0 {
            0nat
        } else {
            child_voice_count(s.children@[0], midi_note)
        },
    }
}

proof fn lemma_layer_sum_split(cs: Seq<CompositeChildKind>, midi_note: u8, i: int)
    requires
        0 <= i <= cs.len(),
    ensures
        layer_voice_sum(cs, midi_note) == layer_voice_sum(cs.subrange(0, i), midi_note)
            + layer_voice_sum(cs.subrange(i, cs.len() as int), midi_note),
    decreases cs.len(),
{
    if i == cs.len() {
        assert(cs.subrange(0, i) =~= cs);
        assert(cs.subrange(i, cs.len() as int) =~= Seq::<CompositeChildKind>::empty());
    } else {
        let head = cs.drop_last();
        lemma_layer_sum_split(head, midi_note, i);
        assert(head.subrange(0, i) =~= cs.subrange(0, i));
        assert(head.subrange(i, head.len() as int) =~= cs.subrange(i, cs.len() as int).drop_last());
        assert(cs.subrange(i, cs.len() as int).last() == cs.last());
    }
}

/// Law: a Layer composite whose children each trigger exactly one voice for
/// a note — an oscillator, or a sampler or nested composite that covers it —
/// produces exactly as many sub-voices as it has children.
pub proof fn lemma_layer_fan_out(s: CompositeLayout, midi_note: u8)
    requires
        s.mode == CompositeMode::Layer,
        forall|i: int|
            0 <= i < s.children@.len() ==> child_voice_count(
                #[trigger] s.children@[i],
                midi_note,
            ) == 1,
    ensures
        layout_voice_count(s, midi_note) == s.children@.len(),
{
    lemma_layer_sum_all_ones(s.children@, midi_note);
}

proof fn lemma_layer_sum_all_ones(cs: Seq<CompositeChildKind>, midi_note: u8)
    requires
        forall|i: int|
            0 <= i < cs.len() ==> child_voice_count(#[trigger] cs[i], midi_note) == 1,
    ensures
        layer_voice_sum(cs, midi_note) == cs.len(),
    decreases cs.len(),
{
    if cs.len() > 0 {
        lemma_layer_sum_all_ones(cs.drop_last(), midi_note);
    }
}

proof fn lemma_first_covering_skip(cs: Seq<CompositeChildKind>, midi_note: u8, j: int)
    requires
        0 <= j <= cs.len(),
        forall|k: int| 0 <= k < j ==> child_voice_count(#[trigger] cs[k], midi_note) == 0,
    ensures
        first_covering_count(cs, midi_note) == first_covering_count(
            cs.subrange(j, cs.len() as int),
            midi_note,
        ),
    decreases j,
{
    if j == 0 {
        assert(cs.subrange(0, cs.len() as int) =~= cs);
    } else {
        assert(child_voice_count(cs.first(), midi_note) == 0);
        lemma_first_covering_skip(cs.drop_first(), midi_note, j - 1);
        assert(cs.drop_first().subrange(j - 1, cs.drop_first().len() as int) =~= cs.subrange(
            j,
            cs.len() as int,
        ));
    }
}

/// How many sub-voices the composite triggers for the note, computed as
/// `trigger_note` routes: every child in Layer mode, one routed child in
/// Split mode, the first child in Chain mode.
pub fn triggered_voice_count(s: &CompositeLayout, midi_note: u8) -> (r: usize)
    requires
        layout_voice_count(*s, midi_note) <= usize::MAX,
    ensures
        r == layout_voice_count(*s, midi_note),
    decreases *s,
{
    match s.mode {
        CompositeMode::Layer => {
            let n = s.children.len();
            let mut acc: usize = 0;
            let mut i: usize = 0;
            while i < n
                invariant
                    i <= n,
                    n == s.children@.len(),
                    layout_voice_count(*s, midi_note) <= usize::MAX,
                    s.mode == CompositeMode::Layer,
                    acc == layer_voice_sum(s.children@.subrange(0, i as int), midi_note),
                decreases n - i,
            {
                let ghost prefix = s.children@.subrange(0, i as int);
                let ghost prefix1 = s.children@.subrange(0, i as int + 1);
                proof {
                    assert(prefix1.drop_last() =~= prefix);
                    assert(prefix1.last() == s.children@[i as int]);
                    lemma_layer_sum_split(s.children@, midi_note, i as int + 1);
                    assert(decreases_to!(*s => s.children));
                    assert(decreases_to!(s.children => s.children@[i as int]));
                }
                let c = child_triggered_count(&s.children[i], midi_note);
                acc = acc + c;
                i += 1;
            }
            proof {
                assert(s.children@.subrange(0, n as int) =~= s.children@);
            }
            acc
        },
        CompositeMode::Split => match &s.split_points {
            Some(points) => {
                if s.children.len() == 0 {
                    0
                } else {
                    let idx = split_child_index(points, midi_note, s.children.len());
                    proof {
                        assert(decreases_to!(*s => s.children));
                        assert(decreases_to!(s.children => s.children@[idx as int]));
                    }
                    child_triggered_count(&s.children[idx], midi_note)
                }
            },
            None => {
                let n = s.children.len();
                let mut i: usize = 0;
                while i < n
                    invariant
                        i <= n,
                        n == s.children@.len(),
                        layout_voice_count(*s, midi_note) <= usize::MAX,
                        s.mode == CompositeMode::Split,
                        s.split_points is None,
                        forall|k: int|
                            0 <= k < i ==> child_voice_count(
                                #[trigger] s.children@[k],
                                midi_note,
                            ) == 0,
                    decreases n - i,
                {
                    proof {
                        lemma_first_covering_skip(s.children@, midi_note, i as int);
                        let tail = s.children@.subrange(i as int, n as int);
                        assert(tail.first() == s.children@[i as int]);
                        assert(decreases_to!(*s => s.children));
                        assert(decreases_to!(s.children => s.children@[i as int]));
                    }
                    let c = child_triggered_count(&s.children[i], midi_note);
                    if c > 0 {
                        proof {
                            let tail = s.children@.subrange(i as int, n as int);
                            assert(first_covering_count(tail, midi_note) == child_voice_count(
                                tail.first(),
                                midi_note,
                            ));
                        }
                        return c;
                    }
                    i += 1;
                }
                proof {
                    lemma_first_covering_skip(s.children@, midi_note, n as int);
                    assert(s.children@.subrange(n as int, n as int)
                        =~= Seq::<CompositeChildKind>::empty());
                }
                0
            },
        },
        CompositeMode::Chain => {
            if s.children.len() == 0 {
                0
            } else {
                proof {
                    assert(decreases_to!(*s => s.children));
                    assert(decreases_to!(s.children => s.children@[0]));
                }
                child_triggered_count(&s.children[0], midi_note)
            }
        },
    }
}

/// How many sub-voices one child triggers for the note.
pub fn child_triggered_count(c: &CompositeChildKind, midi_note: u8) -> (r: usize)
    requires
        child_voice_count(*c, midi_note) <= usize::MAX,
    ensures
        r == child_voice_count(*c, midi_note),
    decreases *c,
{
    match c {
        CompositeChildKind::Oscillator => 1,
        CompositeChildKind::Sampler(zones) => {
            match crate::sampler::find_zone_index(zones, midi_note) {
                Some(_) => 1,
                None => 0,
            }
        },
        CompositeChildKind::Composite(inner) => {
            proof {
                assert(decreases_to!(*c => **inner));
            }
            triggered_voice_count(&**inner, midi_note)
        },
    }
}

/// Whether a composite-backed voice group is done: it is finished only
/// when every one of its sub-voices is finished, so one sounding child
/// keeps the whole group alive.
pub fn group_finished(finished: &Vec<bool>) -> (r: bool)
    ensures
        r == (forall|i: int| 0 <= i < finished@.len() ==> #[trigger] finished@[i]),
{
    let n = finished.len();
    let mut i: usize = 0;
    while i < n
        invariant
            i <= n,
            n == finished@.len(),
            forall|j: int| 0 <= j < i ==> #[trigger] finished@[j],
        decreases n - i,
    {
        if !finished[i] {
            return false;
        }
        i += 1;
    }
    true
}

/// The child index a Split composite with explicit split points routes the
/// note to.
pub fn split_child_index(points: &Vec<u8>, midi_note: u8, n_children: usize) -> (r: usize)
    requires
        n_children > 0,
    ensures
        r == split_index_spec(points@, midi_note, n_children as int),
{
    let n = points.len();
    let mut count: usize = 0;
    let mut i: usize = 0;
    while i < n
        invariant
            i <= n,
            n == points@.len(),
            count == boundaries_at_or_below(points@.subrange(0, i as int), midi_note),
            count <= i,
        decreases n - i,
    {
        let ghost prefix = points@.subrange(0, i as int);
        let ghost prefix1 = points@.subrange(0, i as int + 1);
        proof {
            assert(prefix1.drop_last() =~= prefix);
            assert(prefix1.last() == points@[i as int]);
        }
        if points[i] <= midi_note {
            count += 1;
        }
        i += 1;
    }
    proof {
        assert(points@.subrange(0, n as int) =~= points@);
    }
    if count > n_children - 1 {
        n_children - 1
    } else {
        count
    }
}

} // verus!
