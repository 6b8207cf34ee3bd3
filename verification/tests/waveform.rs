use songwalker_core::waveform::parse_waveform;
use songwalker_core::waveform::Waveform;

#[test]
fn parse_waveform_names() {
    assert_eq!(parse_waveform("sine"), Waveform::Sine);
    assert_eq!(parse_waveform("square"), Waveform::Square);
    assert_eq!(parse_waveform("sawtooth"), Waveform::Sawtooth);
    assert_eq!(parse_waveform("saw"), Waveform::Sawtooth);
    assert_eq!(parse_waveform("triangle"), Waveform::Triangle);
}

#[test]
fn parse_waveform_defaults_to_triangle() {
    assert_eq!(parse_waveform(""), Waveform::Triangle);
    assert_eq!(parse_waveform("noise"), Waveform::Triangle);
    assert_eq!(parse_waveform("SINE"), Waveform::Triangle);
    assert_eq!(parse_waveform("sine "), Waveform::Triangle);
}
