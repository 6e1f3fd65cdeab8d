use fs_bot::audio::{create_pcm_source, prepare_sound, sound_file_name};

/// Builds the bytes of a 16-bit stereo PCM waveform file around the given
/// interleaved samples.
fn wav_bytes(samples: &[i16]) -> Vec<u8> {
    let data_len = (samples.len() * 2) as u32;
    let mut b: Vec<u8> = Vec::new();
    b.extend_from_slice(b"RIFF");
    b.extend_from_slice(&(36 + data_len).to_le_bytes());
    b.extend_from_slice(b"WAVE");
    b.extend_from_slice(b"fmt ");
    b.extend_from_slice(&16u32.to_le_bytes());
    b.extend_from_slice(&1u16.to_le_bytes()); // PCM
    b.extend_from_slice(&2u16.to_le_bytes()); // stereo
    b.extend_from_slice(&44100u32.to_le_bytes());
    b.extend_from_slice(&(44100u32 * 4).to_le_bytes());
    b.extend_from_slice(&4u16.to_le_bytes());
    b.extend_from_slice(&16u16.to_le_bytes());
    b.extend_from_slice(b"data");
    b.extend_from_slice(&data_len.to_le_bytes());
    for s in samples {
        b.extend_from_slice(&s.to_le_bytes());
    }
    b
}

#[test]
fn sound_file_names() {
    assert_eq!(sound_file_name("goodbye"), "goodbye.wav");
    assert_eq!(sound_file_name("hello3"), "hello3.wav");
}

#[test]
fn decoded_sound_plays_back_the_samples() {
    let samples: [i16; 4] = [1, -2, 3, 4];
    let mut source = prepare_sound(Some(wav_bytes(&samples))).expect("a decodable file");
    assert!(source.is_stereo());
    let mut buffer: Vec<i16> = vec![0; 4];
    assert_eq!(source.read_frame(&mut buffer), Some(4));
    assert_eq!(buffer, vec![1, -2, 3, 4]);
    assert_eq!(source.read_frame(&mut buffer), None);
}

#[test]
fn frames_come_out_in_order() {
    let mut source = create_pcm_source(true, vec![10, 20, 30, 40, 50]);
    let mut buffer: Vec<i16> = vec![0; 2];
    assert_eq!(source.read_frame(&mut buffer), Some(2));
    assert_eq!(buffer, vec![10, 20]);
    assert_eq!(source.read_frame(&mut buffer), Some(2));
    assert_eq!(buffer, vec![30, 40]);
    // Only one sample is left: the front of the buffer takes it, the rest of
    // the buffer stays, and the read reports exhaustion.
    assert_eq!(source.read_frame(&mut buffer), None);
    assert_eq!(buffer, vec![50, 40]);
    // Exhausted for good.
    assert_eq!(source.read_frame(&mut buffer), None);
    assert_eq!(buffer, vec![50, 40]);
}

#[test]
fn empty_frame_reads_succeed() {
    let mut source = create_pcm_source(true, vec![1, 2]);
    let mut empty: Vec<i16> = vec![];
    assert_eq!(source.read_frame(&mut empty), Some(0));
    let mut buffer: Vec<i16> = vec![0, 0];
    assert_eq!(source.read_frame(&mut buffer), Some(2));
    assert_eq!(buffer, vec![1, 2]);
}

#[test]
fn mono_source_reports_layout() {
    let source = create_pcm_source(false, vec![]);
    assert!(!source.is_stereo());
}

#[test]
fn missing_or_undecodable_sound_is_skipped() {
    assert!(prepare_sound(None).is_none());
    assert!(prepare_sound(Some(vec![])).is_none());
    assert!(prepare_sound(Some(b"not a waveform".to_vec())).is_none());
    // A truncated header.
    let mut bytes = wav_bytes(&[1, 2]);
    bytes.truncate(20);
    assert!(prepare_sound(Some(bytes)).is_none());
}
