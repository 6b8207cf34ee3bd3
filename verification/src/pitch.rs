//! Note-name parsing: "C4", "F#3", "Bb5" and the like to MIDI note numbers.
//!
//! The grammar is one letter A-G, an optional accidental ('#' or 'b'), and a
//! decimal octave (possibly signed). C4 maps to MIDI 60, so a note name with
//! octave `o` maps to `(o + 1) * 12` plus the letter's semitone offset.

use vstd::prelude::*;
use vstd::string::StringSliceAdditionalSpecFns;

verus! {

/// ASCII decimal digit.
pub open spec fn is_digit_byte(b: u8) -> bool {
    48 <= b <= 57
}

/// Semitone offset of a note letter within the octave (C = 0 ... B = 11),
/// or `None` for a byte that is not a note letter.
pub open spec fn letter_semitone(b: u8) -> Option<int> {
    if b == 67 {  // 'C'
        Some(0int)
    } else if b == 68 {  // 'D'
        Some(2int)
    } else if b == 69 {  // 'E'
        Some(4int)
    } else if b == 70 {  // 'F'
        Some(5int)
    } else if b == 71 {  // 'G'
        Some(7int)
    } else if b == 65 {  // 'A'
        Some(9int)
    } else if b == 66 {  // 'B'
        Some(11int)
    } else {
        None
    }
}

/// Value of a string of decimal digits, most significant first.
pub open spec fn digits_val(s: Seq<u8>) -> int
    decreases s.len(),
{
    if s.len() == 0 {
        0
    } else {
        digits_val(s.drop_last()) * 10 + (s.last() - 48)
    }
}

pub open spec fn all_digits(s: Seq<u8>) -> bool {
    forall|i: int| 0 <= i < s.len() ==> is_digit_byte(#[trigger] s[i])
}

/// Mathematical value of a decimal numeral with an optional sign, or `None`
/// where the bytes are not a numeral (empty, stray characters, sign alone).
pub open spec fn decimal_int(s: Seq<u8>) -> Option<int> {
    if s.len() > 0 && (s[0] == 43 || s[0] == 45) {  // '+' or '-'
        let rest = s.subrange(1, s.len() as int);
        if rest.len() > 0 && all_digits(rest) {
            if s[0] == 45 {
                Some(-digits_val(rest))
            } else {
                Some(digits_val(rest))
            }
        } else {
            None
        }
    } else if s.len() > 0 && all_digits(s) {
        Some(digits_val(s))
    } else {
        None
    }
}

/// What parsing the bytes as an `i32` yields: the numeral's value where it
/// exists and fits, `None` otherwise.
pub open spec fn parse_i32(s: Seq<u8>) -> Option<i32> {
    match decimal_int(s) {
        Some(v) => if i32::MIN <= v <= i32::MAX {
            Some(v as i32)
        } else {
            None
        },
        None => None,
    }
}

/// The MIDI note number a note name denotes: letter, optional accidental,
/// signed decimal octave. `None` where the name does not parse or the
/// result falls outside `i32`.
pub open spec fn note_midi_spec(s: Seq<u8>) -> Option<i32> {
    if s.len() == 0 {
        None
    } else {
        match letter_semitone(s[0]) {
            None => None,
            Some(base) => {
                let sem = if s.len() > 1 && s[1] == 35 {  // '#'
                    base + 1
                } else if s.len() > 1 && s[1] == 98 {  // 'b'
                    base - 1
                } else {
                    base
                };
                let idx: int = if s.len() > 1 && (s[1] == 35 || s[1] == 98) {
                    2
                } else {
                    1
                };
                match parse_i32(s.subrange(idx, s.len() as int)) {
                    None => None,
                    Some(oct) => {
                        let m = (oct + 1) * 12 + sem;
                        if i32::MIN <= m <= i32::MAX {
                            Some(m as i32)
                        } else {
                            None
                        }
                    },
                }
            },
        }
    }
}

proof fn lemma_digits_val_nonneg(s: Seq<u8>)
    requires
        all_digits(s),
    ensures
        digits_val(s) >= 0,
    decreases s.len(),
{
    if s.len() > 0 {
        assert(all_digits(s.drop_last()));
        lemma_digits_val_nonneg(s.drop_last());
    }
}

/// Parse the bytes from `start` on as a (possibly signed) decimal `i32`,
/// exactly as `parse_i32` describes.
#[verifier::loop_isolation(false)]
fn parse_decimal_i32(bytes: &[u8], start: usize) -> (r: Option<i32>)
    requires
        start <= bytes@.len(),
    ensures
        r == parse_i32(bytes@.subrange(start as int, bytes@.len() as int)),
{
    let ghost s = bytes@.subrange(start as int, bytes@.len() as int);
    let n = bytes.len();
    if start >= n {
        return None;
    }
    let b0 = bytes[start];
    let neg = b0 == 45;
    let dstart = if b0 == 45 || b0 == 43 {
        start + 1
    } else {
        start
    };
    let ghost digits = bytes@.subrange(dstart as int, n as int);
    proof {
        if b0 == 45 || b0 == 43 {
            assert(s.subrange(1, s.len() as int) =~= digits);
        }
    }
    if dstart >= n {
        // A sign with no digits after it.
        return None;
    }

    // Accumulate the digit value, capped once it can no longer fit an i32.
    let cap: u64 = 3000000000;
    let mut acc: u64 = 0;
    let mut i = dstart;
    while i < n
        invariant
            dstart <= i <= n,
            n == bytes@.len(),
            digits == bytes@.subrange(dstart as int, n as int),
            all_digits(bytes@.subrange(dstart as int, i as int)),
            cap == 3000000000,
            digits_val(bytes@.subrange(dstart as int, i as int)) <= cap
                ==> acc == digits_val(bytes@.subrange(dstart as int, i as int)),
            digits_val(bytes@.subrange(dstart as int, i as int)) > cap ==> acc > cap,
            acc <= cap * 10 + 9,
        decreases n - i,
    {
        let b = bytes[i];
        if b < 48 || b > 57 {
            proof {
                assert(digits[i - dstart] == bytes@[i as int]);
                assert(!all_digits(digits));
                if !(b0 == 45 || b0 == 43) {
                    assert(s =~= digits);
                }
            }
            return None;
        }
        let ghost prefix = bytes@.subrange(dstart as int, i as int);
        let ghost prefix1 = bytes@.subrange(dstart as int, i as int + 1);
        proof {
            assert(prefix1.drop_last() =~= prefix);
            assert(prefix1.last() == bytes@[i as int]);
            lemma_digits_val_nonneg(prefix);
        }
        if acc <= cap {
            acc = acc * 10 + ((b - 48) as u64);
        }
        i += 1;
    }
    proof {
        assert(bytes@.subrange(dstart as int, i as int) =~= digits);
        lemma_digits_val_nonneg(digits);
        if !(b0 == 45 || b0 == 43) {
            assert(s =~= digits);
        }
    }
    if neg {
        if acc <= 2147483648 {
            let v: i64 = -(acc as i64);
            Some(v as i32)
        } else {
            None
        }
    } else {
        if acc <= 2147483647 {
            Some(acc as i32)
        } else {
            None
        }
    }
}

/// Parse a note name (e.g. "C4", "F#3", "Bb5") into a MIDI note number.
pub fn note_to_midi(note: &str) -> (r: Option<i32>)
    ensures
        r == note_midi_spec(note.spec_bytes()),
{
    let bytes = note.as_bytes();
    let n = bytes.len();
    if n == 0 {
        return None;
    }

    let b0 = bytes[0];
    let base: i32 = if b0 == 67 {
        0
    } else if b0 == 68 {
        2
    } else if b0 == 69 {
        4
    } else if b0 == 70 {
        5
    } else if b0 == 71 {
        7
    } else if b0 == 65 {
        9
    } else if b0 == 66 {
        11
    } else {
        return None;
    };

    let has_accidental = n > 1 && (bytes[1] == 35 || bytes[1] == 98);
    let sem: i32 = if n > 1 && bytes[1] == 35 {
        base + 1
    } else if n > 1 && bytes[1] == 98 {
        base - 1
    } else {
        base
    };
    let idx: usize = if has_accidental {
        2
    } else {
        1
    };

    match parse_decimal_i32(bytes, idx) {
        None => None,
        Some(oct) => {
            let m: i64 = (oct as i64 + 1) * 12 + sem as i64;
            if -2147483648 <= m && m <= 2147483647 {
                Some(m as i32)
            } else {
                None
            }
        },
    }
}

} // verus!
