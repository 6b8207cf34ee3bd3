//! Oscillator waveform shapes and the name table that selects them.
//!
//! Instrument configurations carry the waveform as a string; an
//! unrecognized name falls back to the triangle wave.

use vstd::prelude::*;
use vstd::string::StringSliceAdditionalSpecFns;

verus! {

/// Supported waveform shapes.
#[derive(Debug, Clone, Copy, PartialEq, Eq, Structural)]
pub enum Waveform {
    Sine,
    Square,
    Sawtooth,
    Triangle,
}

/// The bytes of "sine".
pub open spec fn sine_name() -> Seq<u8> {
    seq![115u8, 105u8, 110u8, 101u8]
}

/// The bytes of "square".
pub open spec fn square_name() -> Seq<u8> {
    seq![115u8, 113u8, 117u8, 97u8, 114u8, 101u8]
}

/// The bytes of "sawtooth".
pub open spec fn sawtooth_name() -> Seq<u8> {
    seq![115u8, 97u8, 119u8, 116u8, 111u8, 111u8, 116u8, 104u8]
}

/// The bytes of "saw".
pub open spec fn saw_name() -> Seq<u8> {
    seq![115u8, 97u8, 119u8]
}

/// The waveform a name denotes. "saw" is accepted as shorthand for
/// "sawtooth"; every unrecognized name (including "triangle") selects
/// the triangle wave.
pub open spec fn waveform_name_spec(s: Seq<u8>) -> Waveform {
    if s == sine_name() {
        Waveform::Sine
    } else if s == square_name() {
        Waveform::Square
    } else if s == sawtooth_name() || s == saw_name() {
        Waveform::Sawtooth
    } else {
        Waveform::Triangle
    }
}

/// Parse a waveform name to a `Waveform`, defaulting to `Triangle`.
pub fn parse_waveform(s: &str) -> (r: Waveform)
    ensures
        r == waveform_name_spec(s.spec_bytes()),
{
    let b = s.as_bytes();
    let n = b.len();
    if n == 4 && b[0] == 115 && b[1] == 105 && b[2] == 110 && b[3] == 101 {
        proof {
            assert(b@ =~= sine_name());
        }
        Waveform::Sine
    } else if n == 6 && b[0] == 115 && b[1] == 113 && b[2] == 117 && b[3] == 97 && b[4] == 114
        && b[5] == 101 {
        proof {
            assert(b@ =~= square_name());
        }
        Waveform::Square
    } else if n == 8 && b[0] == 115 && b[1] == 97 && b[2] == 119 && b[3] == 116 && b[4] == 111
        && b[5] == 111 && b[6] == 116 && b[7] == 104 {
        proof {
            assert(b@ =~= sawtooth_name());
        }
        Waveform::Sawtooth
    } else if n == 3 && b[0] == 115 && b[1] == 97 && b[2] == 119 {
        proof {
            assert(b@ =~= saw_name());
        }
        Waveform::Sawtooth
    } else {
        Waveform::Triangle
    }
}

} // verus!
