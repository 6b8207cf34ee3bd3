//! Sample-accurate scheduling of note events.
//!
//! A render call turns each note event into a `ScheduledSpan` of sample
//! offsets, sorts the spans by start, derives the total output length from
//! the end mode, and then walks the output in fixed-size blocks, starting
//! and releasing voices whose offsets fall inside the block — subject to a
//! hard cap on concurrently active voices, beyond which notes are dropped.
//! All of those decisions are made here; the signal path only fills the
//! samples in between.

use vstd::prelude::*;
use vstd::string::StringSliceAdditionalSpecFns;
use vstd::utf8::encode_utf8;

verus! {

/// Controls how the engine determines the total output length.
#[derive(Debug, Clone, Copy, PartialEq, Eq, Structural)]
pub enum EndMode {
    /// Hard cut when the last note's gate ends (note-off).
    Gate,
    /// Wait for all envelope releases to finish.
    Release,
    /// Wait for all notes and effects to finish (default).
    Tail,
}

impl Default for EndMode {
    fn default() -> (r: Self)
        ensures
            r == EndMode::Tail,
    {
        EndMode::Tail
    }
}

/// One note event, resolved to sample offsets.
#[derive(Debug, Clone, Copy, PartialEq, Eq, Structural)]
pub struct ScheduledSpan {
    /// Sample offset when the note starts.
    pub start_sample: usize,
    /// Sample offset when the note is released (gate off).
    pub release_sample: usize,
    /// Length of this note's envelope release, in samples.
    pub release_len: usize,
}

/// The latest gate end over the spans, 0 with no spans.
pub open spec fn max_gate_end(spans: Seq<ScheduledSpan>) -> int
    decreases spans.len(),
{
    if spans.len() == 0 {
        0
    } else {
        let rest = max_gate_end(spans.drop_last());
        let v = spans.last().release_sample as int;
        if v > rest {
            v
        } else {
            rest
        }
    }
}

/// The latest end of an envelope release over the spans, 0 with no spans.
pub open spec fn max_release_end(spans: Seq<ScheduledSpan>) -> int
    decreases spans.len(),
{
    if spans.len() == 0 {
        0
    } else {
        let rest = max_release_end(spans.drop_last());
        let v = spans.last().release_sample + spans.last().release_len;
        if v > rest {
            v
        } else {
            rest
        }
    }
}

/// The latest end of an envelope release plus the effects tail, 0 with no
/// spans.
pub open spec fn max_tail_end(spans: Seq<ScheduledSpan>, tail: int) -> int
    decreases spans.len(),
{
    if spans.len() == 0 {
        0
    } else {
        let rest = max_tail_end(spans.drop_last(), tail);
        let v = spans.last().release_sample + spans.last().release_len + tail;
        if v > rest {
            v
        } else {
            rest
        }
    }
}

/// Total output length: the end the mode asks for, floored at the length
/// the beat cursor reached.
pub open spec fn total_samples_spec(
    end_mode: EndMode,
    cursor: int,
    spans: Seq<ScheduledSpan>,
    tail: int,
) -> int {
    let end = match end_mode {
        EndMode::Gate => max_gate_end(spans),
        EndMode::Release => max_release_end(spans),
        EndMode::Tail => max_tail_end(spans, tail),
    };
    if cursor > end {
        cursor
    } else {
        end
    }
}

/// Compute the total output length in samples for a render call.
///
/// `cursor_samples` is the length the beat cursor reached and
/// `tail_samples` the fixed effects tail added in `Tail` mode.
pub fn total_output_samples(
    end_mode: EndMode,
    cursor_samples: usize,
    spans: &Vec<ScheduledSpan>,
    tail_samples: usize,
) -> (r: usize)
    requires
        forall|i: int|
            0 <= i < spans@.len() ==> (#[trigger] spans@[i]).release_sample
                + spans@[i].release_len + tail_samples <= usize::MAX,
    ensures
        r == total_samples_spec(end_mode, cursor_samples as int, spans@, tail_samples as int),
{
    let n = spans.len();
    let mut end: usize = 0;
    let mut i: usize = 0;
    match end_mode {
        EndMode::Gate => {
            while i < n
                invariant
                    i <= n,
                    n == spans@.len(),
                    end == max_gate_end(spans@.subrange(0, i as int)),
                decreases n - i,
            {
                proof {
                    assert(spans@.subrange(0, i as int + 1).drop_last() =~= spans@.subrange(
                        0,
                        i as int,
                    ));
                    assert(spans@.subrange(0, i as int + 1).last() == spans@[i as int]);
                }
                let v = spans[i].release_sample;
                if v > end {
                    end = v;
                }
                i += 1;
            }
        },
        EndMode::Release => {
            while i < n
                invariant
                    i <= n,
                    n == spans@.len(),
                    forall|j: int|
                        0 <= j < spans@.len() ==> (#[trigger] spans@[j]).release_sample
                            + spans@[j].release_len <= usize::MAX,
                    end == max_release_end(spans@.subrange(0, i as int)),
                decreases n - i,
            {
                proof {
                    assert(spans@.subrange(0, i as int + 1).drop_last() =~= spans@.subrange(
                        0,
                        i as int,
                    ));
                    assert(spans@.subrange(0, i as int + 1).last() == spans@[i as int]);
                }
                let v = spans[i].release_sample + spans[i].release_len;
                if v > end {
                    end = v;
                }
                i += 1;
            }
        },
        EndMode::Tail => {
            while i < n
                invariant
                    i <= n,
                    n == spans@.len(),
                    forall|j: int|
                        0 <= j < spans@.len() ==> (#[trigger] spans@[j]).release_sample
                            + spans@[j].release_len + tail_samples <= usize::MAX,
                    end == max_tail_end(spans@.subrange(0, i as int), tail_samples as int),
                decreases n - i,
            {
                proof {
                    assert(spans@.subrange(0, i as int + 1).drop_last() =~= spans@.subrange(
                        0,
                        i as int,
                    ));
                    assert(spans@.subrange(0, i as int + 1).last() == spans@[i as int]);
                }
                let v = spans[i].release_sample + spans[i].release_len + tail_samples;
                if v > end {
                    end = v;
                }
                i += 1;
            }
        },
    }
    proof {
        assert(spans@.subrange(0, n as int) =~= spans@);
    }
    if cursor_samples > end {
        cursor_samples
    } else {
        end
    }
}

proof fn lemma_tail_end_exceeds_gate_end(spans: Seq<ScheduledSpan>, tail: int)
    requires
        spans.len() > 0,
    ensures
        max_tail_end(spans, tail) >= max_gate_end(spans) + tail,
    decreases spans.len(),
{
    if spans.len() == 1 {
        assert(spans.drop_last().len() == 0);
        assert(max_tail_end(spans.drop_last(), tail) == 0);
        assert(max_gate_end(spans.drop_last()) == 0);
    } else {
        lemma_tail_end_exceeds_gate_end(spans.drop_last(), tail);
    }
}

/// Law: for the same note content, rendering in `Tail` mode yields a
/// strictly longer output than rendering in `Gate` mode, as long as there
/// is at least one note, the effects tail is positive, and it is the notes
/// — not the beat cursor running past them — that end the song.
pub proof fn lemma_tail_longer_than_gate(cursor: int, spans: Seq<ScheduledSpan>, tail: int)
    requires
        spans.len() > 0,
        tail > 0,
        cursor <= max_gate_end(spans),
    ensures
        total_samples_spec(EndMode::Tail, cursor, spans, tail) > total_samples_spec(
            EndMode::Gate,
            cursor,
            spans,
            tail,
        ),
{
    lemma_tail_end_exceeds_gate_end(spans, tail);
}

/// Walks the output buffer in fixed-size blocks: every sample of
/// `0..total_samples` falls in exactly one block, and only the last block
/// may be short.
#[derive(Debug, Clone, Copy, PartialEq, Eq, Structural)]
pub struct BlockCursor {
    pub block_start: usize,
    pub block_size: usize,
    pub total_samples: usize,
}

impl BlockCursor {
    /// A cursor at the start of the output.
    pub fn new(block_size: usize, total_samples: usize) -> (r: BlockCursor)
        requires
            block_size > 0,
        ensures
            r == (BlockCursor { block_start: 0, block_size, total_samples }),
    {
        BlockCursor { block_start: 0, block_size, total_samples }
    }

    /// The bounds of the next block, or `None` once the output is covered.
    /// A yielded block `[start, end)` begins where the previous one ended
    /// and is `block_size` samples long, cut short at the total.
    pub fn next_block(&mut self) -> (r: Option<(usize, usize)>)
        requires
            old(self).block_size > 0,
        ensures
            final (self).block_size == old(self).block_size,
            final (self).total_samples == old(self).total_samples,
            old(self).block_start >= old(self).total_samples ==> r is None && *final (self)
                == *old(self),
            old(self).block_start < old(self).total_samples ==> {
                let end: int = if old(self).block_start + old(self).block_size
                    <= old(self).total_samples {
                    old(self).block_start + old(self).block_size
                } else {
                    old(self).total_samples as int
                };
                r == Some((old(self).block_start, end as usize)) && final (self).block_start
                    == end
            },
    {
        if self.block_start >= self.total_samples {
            return None;
        }
        let remaining = self.total_samples - self.block_start;
        let end = if self.block_size <= remaining {
            self.block_start + self.block_size
        } else {
            self.total_samples
        };
        let start = self.block_start;
        self.block_start = end;
        Some((start, end))
    }
}

/// How many of `candidates` note-on requests the voice cap admits when
/// `active` voices are already playing.
pub open spec fn admitted_count(candidates: int, active: int, cap: int) -> int {
    let room = if cap > active {
        cap - active
    } else {
        0
    };
    if candidates < room {
        candidates
    } else {
        room
    }
}

/// Law: voice admission never lifts the number of active voices above the
/// cap — however many notes ask to start, at most `cap - active` of them
/// are admitted and the rest are dropped.
pub proof fn lemma_voice_cap_respected(candidates: int, active: int, cap: int)
    requires
        0 <= active <= cap,
        0 <= candidates,
    ensures
        active + admitted_count(candidates, active, cap) <= cap,
{
}

/// Scan the schedule from `next_idx` on for notes that start before
/// `block_end`, and admit as many of them as the voice cap leaves room
/// for. Returns the index of the first note at or past `block_end` and
/// the indices of the admitted notes; the candidates beyond the cap are
/// dropped, never queued.
pub fn admit_block_notes(
    spans: &Vec<ScheduledSpan>,
    next_idx: usize,
    block_end: usize,
    active_voices: usize,
    max_voices: usize,
) -> (r: (usize, Vec<usize>))
    requires
        next_idx <= spans@.len(),
        active_voices <= max_voices,
    ensures
        next_idx <= r.0 <= spans@.len(),
        forall|j: int| next_idx <= j < r.0 ==> (#[trigger] spans@[j]).start_sample < block_end,
        r.0 < spans@.len() ==> spans@[r.0 as int].start_sample >= block_end,
        r.1@.len() == admitted_count(
            r.0 - next_idx,
            active_voices as int,
            max_voices as int,
        ),
        forall|k: int| 0 <= k < r.1@.len() ==> #[trigger] r.1@[k] == next_idx + k,
{
    let n = spans.len();
    let room = max_voices - active_voices;
    let mut started: Vec<usize> = Vec::new();
    let mut i = next_idx;
    while i < n && spans[i].start_sample < block_end
        invariant
            next_idx <= i <= n,
            n == spans@.len(),
            room == max_voices - active_voices,
            forall|j: int| next_idx <= j < i ==> (#[trigger] spans@[j]).start_sample < block_end,
            started@.len() == admitted_count(
                i - next_idx,
                active_voices as int,
                max_voices as int,
            ),
            forall|k: int| 0 <= k < started@.len() ==> #[trigger] started@[k] == next_idx + k,
        decreases n - i,
    {
        if started.len() < room {
            started.push(i);
        }
        i += 1;
    }
    (i, started)
}

/// What the preset registry yielded for a note's instrument, reduced to
/// plain values.
#[derive(Debug, Clone, Copy, PartialEq, Eq, Structural)]
pub enum PresetLookup {
    /// The instrument names no preset.
    NoRef,
    /// The named preset is not in the registry.
    Missing,
    /// A sampler preset: the index of the first zone covering the note,
    /// if any covers it.
    Sampler(Option<usize>),
    /// A composite preset: how many sub-voices it triggers for the note.
    Composite(usize),
}

/// The voice implementation the engine backs a note with.
#[derive(Debug, Clone, Copy, PartialEq, Eq, Structural)]
pub enum VoiceSource {
    /// An oscillator voice built from the note's instrument configuration
    /// — the fallback for every unresolved or uncovered case.
    Oscillator,
    /// A sampler voice playing the zone at this index.
    SamplerZone(usize),
    /// A group of the composite's triggered sub-voices.
    CompositeGroup,
}

/// The fallback rule for backing a note with a voice: a sampler preset
/// serves the note where one of its zones covers it, a composite where it
/// triggers at least one sub-voice; no preset reference, a reference
/// absent from the registry, an uncovered note and an empty trigger all
/// fall back to the oscillator.
pub fn choose_voice_source(lookup: PresetLookup) -> (r: VoiceSource)
    ensures
        lookup == PresetLookup::NoRef ==> r == VoiceSource::Oscillator,
        lookup == PresetLookup::Missing ==> r == VoiceSource::Oscillator,
        lookup == PresetLookup::Sampler(Option::<usize>::None) ==> r == VoiceSource::Oscillator,
        lookup matches PresetLookup::Sampler(Some(i)) ==> r == VoiceSource::SamplerZone(i),
        lookup matches PresetLookup::Composite(n) ==> r == (if n == 0 {
            VoiceSource::Oscillator
        } else {
            VoiceSource::CompositeGroup
        }),
{
    match lookup {
        PresetLookup::NoRef => VoiceSource::Oscillator,
        PresetLookup::Missing => VoiceSource::Oscillator,
        PresetLookup::Sampler(None) => VoiceSource::Oscillator,
        PresetLookup::Sampler(Some(i)) => VoiceSource::SamplerZone(i),
        PresetLookup::Composite(n) => if n == 0 {
            VoiceSource::Oscillator
        } else {
            VoiceSource::CompositeGroup
        },
    }
}

/// Whether a voice's gate-off falls inside the block `[block_start,
/// block_end)` — the engine releases such a voice while rendering the
/// block.
pub fn releases_in_block(release_sample: usize, block_start: usize, block_end: usize) -> (r: bool)
    ensures
        r == (block_start <= release_sample && release_sample < block_end),
{
    block_start <= release_sample && release_sample < block_end
}

/// `ord` reads the first `upto` spans in ascending start order, notes with
/// the same start staying in schedule order.
pub open spec fn stable_start_order(
    ord: Seq<usize>,
    spans: Seq<ScheduledSpan>,
    upto: int,
) -> bool {
    forall|i: int, j: int|
        0 <= i < j < upto ==> spans[ord[i] as int].start_sample < spans[ord[j] as int].start_sample
            || (spans[ord[i] as int].start_sample == spans[ord[j] as int].start_sample && ord[i]
            < ord[j])
}

/// The order in which the engine schedules the spans: ascending by start
/// sample, notes with the same start kept in their event order.
///
/// Returns the permutation of `0..spans.len()` that reads the spans in
/// that order; the clauses pin it down uniquely.
pub fn sorted_start_order(spans: &Vec<ScheduledSpan>) -> (r: Vec<usize>)
    ensures
        r@.len() == spans@.len(),
        forall|i: int| 0 <= i < r@.len() ==> (#[trigger] r@[i]) < spans@.len(),
        forall|i: int, j: int| 0 <= i < j < r@.len() ==> r@[i] != r@[j],
        stable_start_order(r@, spans@, spans@.len() as int),
{
    let n = spans.len();
    let mut order: Vec<usize> = Vec::new();
    let mut k: usize = 0;
    while k < n
        invariant
            k <= n,
            order@.len() == k,
            forall|i: int| 0 <= i < k ==> #[trigger] order@[i] == i,
        decreases n - k,
    {
        order.push(k);
        k += 1;
    }
    if n < 2 {
        return order;
    }
    let mut j: usize = 1;
    while j < n
        invariant
            1 <= j <= n,
            n == spans@.len(),
            order@.len() == n,
            forall|k: int| j <= k < n ==> #[trigger] order@[k] == k,
            forall|k: int| 0 <= k < j ==> (#[trigger] order@[k]) < j,
            forall|a: int, b: int| 0 <= a < b < n ==> order@[a] != order@[b],
            stable_start_order(order@, spans@, j as int),
        decreases n - j,
    {
        let idx = order[j];
        let mut pos: usize = j;
        while pos > 0 && spans[order[pos - 1]].start_sample > spans[idx].start_sample
            invariant
                pos <= j < n,
                n == spans@.len(),
                order@.len() == n,
                idx == order@[j as int],
                idx == j,
                forall|k: int| 0 <= k < j ==> (#[trigger] order@[k]) < j,
                forall|k: int|
                    pos <= k < j ==> spans@[(#[trigger] order@[k]) as int].start_sample
                        > spans@[idx as int].start_sample,
            decreases pos,
        {
            pos -= 1;
        }
        let ghost before = order@;
        if pos < j {
            let x = order.remove(j);
            order.insert(pos, x);
            proof {
                let rem = before.remove(j as int);
                before.remove_ensures(j as int);
                rem.insert_ensures(pos as int, x);
                assert(order@ == rem.insert(pos as int, x));
                assert(x == idx);
                assert(forall|k: int| 0 <= k < pos ==> order@[k] == (#[trigger] before[k]));
                assert(order@[pos as int] == idx);
                assert(forall|k: int| pos < k <= j ==> order@[k] == (#[trigger] before[k - 1]));
                assert(forall|k: int| j < k < n ==> order@[k] == (#[trigger] before[k]));
                assert forall|a: int, b: int| 0 <= a < b < n implies order@[a] != order@[b] by {}
                assert forall|a: int, b: int|
                    0 <= a < b < j + 1 implies spans@[order@[a] as int].start_sample
                    < spans@[order@[b] as int].start_sample || (spans@[order@[a] as int].start_sample
                    == spans@[order@[b] as int].start_sample && order@[a] < order@[b]) by {
                    if a == pos {
                        // The inserted index sorts before the scanned-over
                        // entries and carries the largest schedule index.
                        assert(spans@[order@[b] as int].start_sample
                            > spans@[idx as int].start_sample);
                    } else if b == pos {
                        assert(spans@[order@[a] as int].start_sample
                            <= spans@[idx as int].start_sample);
                        assert(order@[a] < idx);
                    }
                }
            }
        } else {
            proof {
                assert forall|a: int, b: int|
                    0 <= a < b < j + 1 implies spans@[order@[a] as int].start_sample
                    < spans@[order@[b] as int].start_sample || (spans@[order@[a] as int].start_sample
                    == spans@[order@[b] as int].start_sample && order@[a] < order@[b]) by {
                    if b == j {
                        assert(spans@[order@[j - 1] as int].start_sample
                            <= spans@[idx as int].start_sample);
                        assert(order@[a] < j);
                    }
                }
            }
        }
        j += 1;
    }
    order
}

/// A property-change event: a dotted target path and its new value, both
/// as the compiler emitted them.
#[derive(Debug, Clone)]
pub struct PropertyEvent {
    pub target: String,
    pub value: String,
}

/// Whether the event's target has exactly these UTF-8 bytes.
pub open spec fn prop_matches(p: PropertyEvent, key: Seq<u8>) -> bool {
    encode_utf8(p.target@) == key
}

/// Find the last property event whose target is `key`.
///
/// Whichever value is emitted last wins, in event order over the whole
/// stream — not the value active at any particular beat.
pub fn last_property_index(props: &Vec<PropertyEvent>, key: &str) -> (r: Option<usize>)
    ensures
        match r {
            Some(i) => i < props@.len() && prop_matches(props@[i as int], key.spec_bytes())
                && forall|j: int|
                i < j < props@.len() ==> !prop_matches(#[trigger] props@[j], key.spec_bytes()),
            None => forall|j: int|
                0 <= j < props@.len() ==> !prop_matches(#[trigger] props@[j], key.spec_bytes()),
        },
{
    let n = props.len();
    let key_bytes = key.as_bytes();
    let mut i = n;
    while i > 0
        invariant
            i <= n,
            n == props@.len(),
            key_bytes@ == key.spec_bytes(),
            forall|j: int|
                i <= j < props@.len() ==> !prop_matches(#[trigger] props@[j], key.spec_bytes()),
        decreases i,
    {
        i -= 1;
        if bytes_eq(props[i].target.as_str().as_bytes(), key_bytes) {
            return Some(i);
        }
    }
    None
}

/// The names with later duplicates removed: each name keeps its first
/// occurrence and the order of first occurrences is kept.
pub open spec fn dedup_first(s: Seq<Seq<char>>) -> Seq<Seq<char>>
    decreases s.len(),
{
    if s.len() == 0 {
        Seq::empty()
    } else {
        let head = dedup_first(s.drop_last());
        if head.contains(s.last()) {
            head
        } else {
            head.push(s.last())
        }
    }
}

/// The preset names a render has to preload: the referenced names in
/// order, each kept once at its first occurrence.
pub fn dedup_preset_refs(names: &Vec<String>) -> (r: Vec<String>)
    ensures
        r@.map_values(|v: String| v@) == dedup_first(names@.map_values(|v: String| v@)),
{
    let n = names.len();
    let mut out: Vec<String> = Vec::new();
    let mut i: usize = 0;
    while i < n
        invariant
            i <= n,
            n == names@.len(),
            out@.map_values(|v: String| v@) == dedup_first(
                names@.subrange(0, i as int).map_values(|v: String| v@),
            ),
        decreases n - i,
    {
        let ghost prefix = names@.subrange(0, i as int).map_values(|v: String| v@);
        let ghost prefix1 = names@.subrange(0, i as int + 1).map_values(|v: String| v@);
        proof {
            assert(names@.subrange(0, i as int + 1).drop_last() =~= names@.subrange(0, i as int));
            assert(prefix1.drop_last() =~= prefix);
            assert(prefix1.last() == names@[i as int]@);
        }
        let name = &names[i];
        let mut found = false;
        let mut k: usize = 0;
        while k < out.len()
            invariant
                k <= out@.len(),
                found ==> exists|j: int| 0 <= j < k && (#[trigger] out@[j])@ == name@,
                !found ==> forall|j: int| 0 <= j < k ==> (#[trigger] out@[j])@ != name@,
            decreases out@.len() - k,
        {
            if String::eq(&out[k], name) {
                found = true;
            }
            k += 1;
        }
        proof {
            let out_views = out@.map_values(|v: String| v@);
            if found {
                let j = choose|j: int| 0 <= j < out@.len() && (#[trigger] out@[j])@ == name@;
                assert(out_views[j] == name@);
                assert(out_views.contains(name@));
            } else {
                assert forall|j: int| 0 <= j < out_views.len() implies out_views[j]
                    != name@ by {
                    assert(out_views[j] == out@[j]@);
                }
                assert(!out_views.contains(name@));
            }
        }
        if !found {
            let ghost out_before = out@;
            out.push(name.clone());
            proof {
                assert(out@ =~= out_before.push(names@[i as int]));
                assert(out@.map_values(|v: String| v@) =~= out_before.map_values(
                    |v: String| v@,
                ).push(names@[i as int]@));
            }
        }
        i += 1;
    }
    proof {
        assert(names@.subrange(0, n as int) =~= names@);
    }
    out
}

/// Byte-for-byte equality of two slices.
fn bytes_eq(a: &[u8], b: &[u8]) -> (r: bool)
    ensures
        r == (a@ == b@),
{
    let n = a.len();
    if n != b.len() {
        proof {
            assert(a@.len() != b@.len());
        }
        return false;
    }
    let mut i: usize = 0;
    while i < n
        invariant
            i <= n,
            n == a@.len(),
            n == b@.len(),
            forall|j: int| 0 <= j < i ==> a@[j] == b@[j],
        decreases n - i,
    {
        if a[i] != b[i] {
            return false;
        }
        i += 1;
    }
    proof {
        assert(a@ =~= b@);
    }
    true
}

} // verus!
