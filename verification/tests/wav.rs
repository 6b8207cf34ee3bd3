use songwalker_core::wav::encode_wav;
use songwalker_core::wav::interleave_duplicate;

#[test]
fn wav_header_valid() {
    let samples: Vec<i16> = vec![0; 1000];
    let wav = encode_wav(&samples, 44100, 2);

    assert_eq!(&wav[0..4], b"RIFF");
    assert_eq!(&wav[8..12], b"WAVE");
    assert_eq!(&wav[12..16], b"fmt ");
    assert_eq!(&wav[36..40], b"data");

    let sr = u32::from_le_bytes([wav[24], wav[25], wav[26], wav[27]]);
    assert_eq!(sr, 44100);

    let ch = u16::from_le_bytes([wav[22], wav[23]]);
    assert_eq!(ch, 2);
}

#[test]
fn wav_size_fields() {
    let samples: Vec<i16> = vec![0; 44100];
    let wav = encode_wav(&samples, 22050, 2);

    let data_size = u32::from_le_bytes([wav[40], wav[41], wav[42], wav[43]]);
    assert_eq!(data_size, 88200);
    let file_size = u32::from_le_bytes([wav[4], wav[5], wav[6], wav[7]]);
    assert_eq!(file_size, 36 + 88200);
    assert_eq!(wav.len(), 44 + 88200);
}

#[test]
fn wav_exact_bytes_for_two_samples() {
    // One stereo frame: left 1, right -2, at 8000 Hz.
    let wav = encode_wav(&[1i16, -2i16], 8000, 2);
    let expected: Vec<u8> = vec![
        // "RIFF", file size 36 + 4
        82, 73, 70, 70, 40, 0, 0, 0,
        // "WAVE", "fmt "
        87, 65, 86, 69, 102, 109, 116, 32,
        // fmt chunk size 16, PCM format 1, 2 channels
        16, 0, 0, 0, 1, 0, 2, 0,
        // sample rate 8000, byte rate 32000
        64, 31, 0, 0, 0, 125, 0, 0,
        // block align 4, bits per sample 16
        4, 0, 16, 0,
        // "data", data size 4
        100, 97, 116, 97, 4, 0, 0, 0,
        // samples 1 and -2, little-endian two's complement
        1, 0, 254, 255,
    ];
    assert_eq!(wav, expected);
}

#[test]
fn wav_empty_data() {
    let wav = encode_wav(&[], 44100, 2);
    assert_eq!(wav.len(), 44);
    let data_size = u32::from_le_bytes([wav[40], wav[41], wav[42], wav[43]]);
    assert_eq!(data_size, 0);
}

#[test]
fn interleave_duplicates_mono() {
    let out = interleave_duplicate(&vec![5i16, -7i16, 0i16]);
    assert_eq!(out, vec![5, 5, -7, -7, 0, 0]);
    assert!(interleave_duplicate(&vec![]).is_empty());
}
