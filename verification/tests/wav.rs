use arcorrust::wav::generate_filename;
use arcorrust::wav::recording_filename;
use arcorrust::wav::wav_bytes;

#[test]
fn header_of_an_empty_recording() {
    let bytes = wav_bytes(&[], 44100);
    assert_eq!(bytes.len(), 44);
    assert_eq!(&bytes[0..4], b"RIFF");
    assert_eq!(&bytes[4..8], &36u32.to_le_bytes());
    assert_eq!(&bytes[8..16], b"WAVEfmt ");
    assert_eq!(&bytes[16..20], &16u32.to_le_bytes());
    assert_eq!(&bytes[20..22], &1u16.to_le_bytes());
    assert_eq!(&bytes[22..24], &2u16.to_le_bytes());
    assert_eq!(&bytes[24..28], &44100u32.to_le_bytes());
    assert_eq!(&bytes[28..32], &(44100u32 * 4).to_le_bytes());
    assert_eq!(&bytes[32..34], &4u16.to_le_bytes());
    assert_eq!(&bytes[34..36], &16u16.to_le_bytes());
    assert_eq!(&bytes[36..40], b"data");
    assert_eq!(&bytes[40..44], &0u32.to_le_bytes());
}

#[test]
fn samples_follow_the_header_little_endian() {
    let samples: [i16; 4] = [0, 32767, -1, -32768];
    let bytes = wav_bytes(&samples, 48000);
    assert_eq!(bytes.len(), 44 + 8);
    assert_eq!(&bytes[4..8], &(36u32 + 8).to_le_bytes());
    assert_eq!(&bytes[40..44], &8u32.to_le_bytes());
    assert_eq!(&bytes[44..], &[0x00, 0x00, 0xff, 0x7f, 0xff, 0xff, 0x00, 0x80]);
}

#[test]
fn recording_names() {
    assert_eq!(recording_filename("20240101_120000"), "recording_20240101_120000.wav");
    assert_eq!(generate_filename(2024, 1, 2, 3, 4, 5), "recording_20240102_030405.wav");
    assert_eq!(generate_filename(1999, 12, 31, 23, 59, 59), "recording_19991231_235959.wav");
    assert_eq!(generate_filename(7, 3, 9, 0, 0, 0), "recording_00070309_000000.wav");
}

#[test]
fn recording_name_of_a_five_digit_year() {
    let expected = "recording_+123450607_080910.wav";
    assert_eq!(generate_filename(12345, 6, 7, 8, 9, 10), expected);
    let when = chrono::NaiveDate::from_ymd_opt(12345, 6, 7)
        .unwrap()
        .and_hms_opt(8, 9, 10)
        .unwrap();
    let stamp = when.format("%Y%m%d_%H%M%S").to_string();
    assert_eq!(recording_filename(&stamp), expected);
    assert_eq!(generate_filename(9999, 12, 31, 23, 59, 59), "recording_99991231_235959.wav");
    assert_eq!(generate_filename(10000, 1, 1, 0, 0, 0), "recording_+100000101_000000.wav");
}
