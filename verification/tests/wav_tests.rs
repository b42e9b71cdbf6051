use stt_client::samples_to_wav;

fn le32(x: u32) -> [u8; 4] {
    [(x % 256) as u8, ((x / 256) % 256) as u8, ((x / 65536) % 256) as u8, (x / 16777216) as u8]
}

#[test]
fn empty_samples_give_exact_header() {
    let wav = samples_to_wav(&vec![]);
    let mut expected: Vec<u8> = Vec::new();
    expected.extend_from_slice(b"RIFF");
    expected.extend_from_slice(&le32(36));
    expected.extend_from_slice(b"WAVE");
    expected.extend_from_slice(b"fmt ");
    expected.extend_from_slice(&le32(16));
    expected.extend_from_slice(&[1, 0]);
    expected.extend_from_slice(&[1, 0]);
    expected.extend_from_slice(&le32(16000));
    expected.extend_from_slice(&le32(32000));
    expected.extend_from_slice(&[2, 0]);
    expected.extend_from_slice(&[16, 0]);
    expected.extend_from_slice(b"data");
    expected.extend_from_slice(&le32(0));
    assert_eq!(wav.len(), 44);
    assert_eq!(wav, expected);
}

#[test]
fn declared_sizes_match_sample_count() {
    let samples: Vec<i16> = vec![5, -5, 123];
    let wav = samples_to_wav(&samples);
    assert_eq!(wav.len(), 44 + 2 * samples.len());
    assert_eq!(&wav[40..44], &le32(2 * samples.len() as u32));
    assert_eq!(&wav[4..8], &le32(36 + 2 * samples.len() as u32));
}

#[test]
fn samples_encode_little_endian_two_bytes_each() {
    let samples: Vec<i16> = vec![0, 1, -1, 32767, -32768];
    let wav = samples_to_wav(&samples);
    assert_eq!(
        &wav[44..],
        &[0x00, 0x00, 0x01, 0x00, 0xff, 0xff, 0xff, 0x7f, 0x00, 0x80]
    );
}

#[test]
fn header_fields_fixed_for_mono_16khz() {
    let wav = samples_to_wav(&vec![7]);
    assert_eq!(&wav[0..4], b"RIFF");
    assert_eq!(&wav[8..12], b"WAVE");
    assert_eq!(&wav[12..16], b"fmt ");
    assert_eq!(&wav[22..24], &[1, 0]); // one channel
    assert_eq!(&wav[24..28], &le32(16000)); // sample rate
    assert_eq!(&wav[28..32], &le32(32000)); // byte rate
    assert_eq!(&wav[34..36], &[16, 0]); // bits per sample
    assert_eq!(&wav[36..40], b"data");
}
