//! Preset schema types and the General MIDI program classification.
//!
//! These types mirror the `preset.json` schema of the preset library:
//! metadata, key/velocity ranges, loop points, audio references and the
//! catalog index. They carry no sample data themselves.

use vstd::prelude::*;

verus! {

/// Preset categories.
#[derive(Debug, Clone, PartialEq, Eq, Structural)]
pub enum PresetCategory {
    Synth,
    Sampler,
    Effect,
    Composite,
}

/// Metadata about a preset's source and classification.
#[derive(Debug, Clone)]
pub struct PresetMetadata {
    /// GM program number (0-127).
    pub gm_program: Option<u8>,
    /// GM category name (e.g., "Piano", "Guitar").
    pub gm_category: Option<String>,
    /// Source SF2 library name (e.g., "FluidR3_GM").
    pub source_library: Option<String>,
    /// Variant index within library.
    pub variant: Option<u32>,
    /// Author of this preset.
    pub author: Option<String>,
    /// License (e.g., "MIT", "CC0").
    pub license: Option<String>,
}

/// Waveform name as it appears in the preset schema.
#[derive(Debug, Clone, PartialEq, Eq, Structural)]
pub enum WaveformType {
    Sine,
    Square,
    Sawtooth,
    Triangle,
    Custom,
}

/// A MIDI key range, both ends inclusive.
#[derive(Debug, Clone, Copy, PartialEq, Eq, Structural)]
pub struct KeyRange {
    pub low: u8,
    pub high: u8,
}

impl KeyRange {
    /// Whether a MIDI note falls within this range.
    pub fn contains_note(&self, midi_note: u8) -> (r: bool)
        ensures
            r == (self.low <= midi_note && midi_note <= self.high),
    {
        self.low <= midi_note && midi_note <= self.high
    }
}

/// A velocity range for velocity layers, both ends inclusive.
#[derive(Debug, Clone, Copy, PartialEq, Eq, Structural)]
pub struct VelocityRange {
    pub low: u8,
    pub high: u8,
}

/// Sustain-loop points of a sample, as sample offsets.
#[derive(Debug, Clone, Copy, PartialEq, Eq, Structural)]
pub struct LoopPoints {
    pub start: u64,
    pub end: u64,
}

/// Reference to audio data — inline, external or content-addressed.
#[derive(Debug, Clone)]
pub enum AudioReference {
    /// Raw 16-bit PCM data, base64 encoded.
    InlinePcm { data: String, bits_per_sample: u8 },
    /// Compressed audio file, base64 encoded.
    InlineFile { data: String, codec: AudioCodec },
    /// External URL (relative to the preset's location).
    External { url: String, codec: AudioCodec, sha256: Option<String> },
    /// Content-addressed storage (hash-based lookup).
    ContentAddressed { hash: String, codec: AudioCodec },
}

/// Audio codec of referenced sample data.
#[derive(Debug, Clone, Copy, PartialEq, Eq, Structural)]
pub enum AudioCodec {
    Wav,
    Mp3,
    Ogg,
    Flac,
}

/// Effect kind of an effect preset node.
#[derive(Debug, Clone, Copy, PartialEq, Eq, Structural)]
pub enum EffectType {
    Reverb,
    Delay,
    Chorus,
    Eq,
    Compressor,
    Filter,
}

/// How children of a composite preset node are combined.
#[derive(Debug, Clone, Copy, PartialEq, Eq, Structural)]
pub enum CompositeMode {
    /// All children play simultaneously, mixed together.
    Layer,
    /// Route notes to children by key range (key split).
    Split,
    /// Audio passes through children in series (effects chain).
    Chain,
}

/// An entry in the preset library's root catalog. Carries enough metadata
/// for search and filtering without loading the full preset.
#[derive(Debug, Clone)]
pub struct CatalogEntry {
    pub id: String,
    pub name: String,
    /// Relative path to the preset file in the library.
    pub path: String,
    pub category: PresetCategory,
    pub tags: Vec<String>,
    pub gm_program: Option<u8>,
    pub source_library: Option<String>,
    pub zone_count: u32,
    pub key_range: Option<KeyRange>,
    pub tuning_verified: bool,
}

/// The root catalog structure of a preset library.
#[derive(Debug, Clone)]
pub struct LibraryIndex {
    pub version: u32,
    pub generated_at: String,
    pub presets: Vec<CatalogEntry>,
}

/// `original_pitch - 100 * coarse_tune - fine_tune`: the pitch of a legacy
/// zone in centitones after both tune offsets are folded in.
pub open spec fn legacy_base_detune(original_pitch: int, coarse_tune: int, fine_tune: int) -> int {
    original_pitch - 100 * coarse_tune - fine_tune
}

/// Division by 100 truncated toward zero, as machine division rounds.
pub open spec fn trunc_div_100(v: int) -> int {
    if v >= 0 {
        v / 100
    } else {
        -((-v) / 100)
    }
}

/// Remainder of division by 100 with the dividend's sign, as machine
/// remainder computes.
pub open spec fn trunc_rem_100(v: int) -> int {
    if v >= 0 {
        v % 100
    } else {
        -((-v) % 100)
    }
}

/// A value clamped to the MIDI note range 0..=127.
pub open spec fn clamp_note(v: int) -> int {
    if v < 0 {
        0
    } else if v > 127 {
        127
    } else {
        v
    }
}

/// Convert legacy originalPitch/coarseTune/fineTune (all centitones or
/// cents) to a root note and a fine-tune offset in cents.
///
/// The root note is the folded pitch in whole semitones, clamped to the
/// MIDI range; the remainder below one semitone becomes the fine tune.
pub fn normalize_legacy_pitch(original_pitch: i32, coarse_tune: i32, fine_tune: i32) -> (r: (
    u8,
    i32,
))
    ensures
        r.0 == clamp_note(
            trunc_div_100(
                legacy_base_detune(original_pitch as int, coarse_tune as int, fine_tune as int),
            ),
        ),
        r.1 == trunc_rem_100(
            legacy_base_detune(original_pitch as int, coarse_tune as int, fine_tune as int),
        ),
{
    let base: i64 = original_pitch as i64 - 100 * (coarse_tune as i64) - fine_tune as i64;
    let neg = base < 0;
    let mag: u64 = if neg {
        (-base) as u64
    } else {
        base as u64
    };
    let mq = mag / 100;
    let mr = mag % 100;
    let q: i64 = if neg {
        -(mq as i64)
    } else {
        mq as i64
    };
    let rem: i64 = if neg {
        -(mr as i64)
    } else {
        mr as i64
    };
    let root: u8 = if q < 0 {
        0
    } else if q > 127 {
        127
    } else {
        q as u8
    };
    (root, rem as i32)
}

/// Map a GM program number (0-127) to its category name.
pub fn gm_category(program: u8) -> (r: &'static str)
    ensures
        program <= 7 ==> r@ == "piano"@,
        8 <= program <= 15 ==> r@ == "chromatic-percussion"@,
        16 <= program <= 23 ==> r@ == "organ"@,
        24 <= program <= 31 ==> r@ == "guitar"@,
        32 <= program <= 39 ==> r@ == "bass"@,
        40 <= program <= 47 ==> r@ == "strings"@,
        48 <= program <= 55 ==> r@ == "ensemble"@,
        56 <= program <= 63 ==> r@ == "brass"@,
        64 <= program <= 71 ==> r@ == "reed"@,
        72 <= program <= 79 ==> r@ == "pipe"@,
        80 <= program <= 87 ==> r@ == "synth-lead"@,
        88 <= program <= 95 ==> r@ == "synth-pad"@,
        96 <= program <= 103 ==> r@ == "synth-effects"@,
        104 <= program <= 111 ==> r@ == "ethnic"@,
        112 <= program <= 119 ==> r@ == "percussive"@,
        120 <= program <= 127 ==> r@ == "sound-effects"@,
        program > 127 ==> r@ == "unknown"@,
{
    if program <= 7 {
        "piano"
    } else if program <= 15 {
        "chromatic-percussion"
    } else if program <= 23 {
        "organ"
    } else if program <= 31 {
        "guitar"
    } else if program <= 39 {
        "bass"
    } else if program <= 47 {
        "strings"
    } else if program <= 55 {
        "ensemble"
    } else if program <= 63 {
        "brass"
    } else if program <= 71 {
        "reed"
    } else if program <= 79 {
        "pipe"
    } else if program <= 87 {
        "synth-lead"
    } else if program <= 95 {
        "synth-pad"
    } else if program <= 103 {
        "synth-effects"
    } else if program <= 111 {
        "ethnic"
    } else if program <= 119 {
        "percussive"
    } else if program <= 127 {
        "sound-effects"
    } else {
        "unknown"
    }
}

/// Map a GM program number to a human-readable category name.
pub fn gm_category_display(program: u8) -> (r: &'static str)
    ensures
        program <= 7 ==> r@ == "Piano"@,
        8 <= program <= 15 ==> r@ == "Chromatic Percussion"@,
        16 <= program <= 23 ==> r@ == "Organ"@,
        24 <= program <= 31 ==> r@ == "Guitar"@,
        32 <= program <= 39 ==> r@ == "Bass"@,
        40 <= program <= 47 ==> r@ == "Strings"@,
        48 <= program <= 55 ==> r@ == "Ensemble"@,
        56 <= program <= 63 ==> r@ == "Brass"@,
        64 <= program <= 71 ==> r@ == "Reed"@,
        72 <= program <= 79 ==> r@ == "Pipe"@,
        80 <= program <= 87 ==> r@ == "Synth Lead"@,
        88 <= program <= 95 ==> r@ == "Synth Pad"@,
        96 <= program <= 103 ==> r@ == "Synth Effects"@,
        104 <= program <= 111 ==> r@ == "Ethnic"@,
        112 <= program <= 119 ==> r@ == "Percussive"@,
        120 <= program <= 127 ==> r@ == "Sound Effects"@,
        program > 127 ==> r@ == "Unknown"@,
{
    if program <= 7 {
        "Piano"
    } else if program <= 15 {
        "Chromatic Percussion"
    } else if program <= 23 {
        "Organ"
    } else if program <= 31 {
        "Guitar"
    } else if program <= 39 {
        "Bass"
    } else if program <= 47 {
        "Strings"
    } else if program <= 55 {
        "Ensemble"
    } else if program <= 63 {
        "Brass"
    } else if program <= 71 {
        "Reed"
    } else if program <= 79 {
        "Pipe"
    } else if program <= 87 {
        "Synth Lead"
    } else if program <= 95 {
        "Synth Pad"
    } else if program <= 103 {
        "Synth Effects"
    } else if program <= 111 {
        "Ethnic"
    } else if program <= 119 {
        "Percussive"
    } else if program <= 127 {
        "Sound Effects"
    } else {
        "Unknown"
    }
}

} // verus!
