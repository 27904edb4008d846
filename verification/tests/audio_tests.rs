use mavoice::capture::{CaptureError, GroqRecorder};
use mavoice::pcm::{decode_samples, encode_samples, encode_wav};
use mavoice::playback::{AudioPlayer, RECENT_CAPACITY};

#[test]
fn decode_reads_little_endian_pairs_and_drops_an_odd_byte() {
    assert_eq!(decode_samples(&[0x00, 0x00, 0xff, 0x7f, 0x00, 0x80, 0xff, 0xff, 0x34]), vec![0, 32767, -32768, -1]);
    assert_eq!(decode_samples(&[]), Vec::<i16>::new());
    assert_eq!(decode_samples(&[7]), Vec::<i16>::new());
}

#[test]
fn encode_writes_low_byte_first() {
    assert_eq!(encode_samples(&[1, -2, 256, i16::MIN, i16::MAX]), vec![1, 0, 0xfe, 0xff, 0, 1, 0, 0x80, 0xff, 0x7f]);
}

#[test]
fn pcm_round_trip_is_exact() {
    let samples: Vec<i16> = vec![0, 1, -1, 12345, -12345, i16::MAX, i16::MIN];
    assert_eq!(decode_samples(&encode_samples(&samples)), samples);
}

#[test]
fn quantised_samples_come_back_within_one_step() {
    let inputs: [f32; 7] = [0.0, 0.5, -0.5, 1.0, -1.0, 0.123, -0.987];
    let quantised: Vec<i16> = inputs
        .iter()
        .map(|s| (s * i16::MAX as f32).clamp(i16::MIN as f32, i16::MAX as f32) as i16)
        .collect();
    let wav = encode_wav(16000, &quantised).unwrap();
    let back = decode_samples(&wav[44..]);
    assert_eq!(back.len(), inputs.len());
    for (o, b) in inputs.iter().zip(back.iter()) {
        let restored = *b as f32 / i16::MAX as f32;
        assert!((restored - o).abs() <= 1.0 / 32767.0);
    }
}

#[test]
fn container_has_the_standard_header() {
    let wav = encode_wav(16000, &[1, -1]).unwrap();
    let expected: Vec<u8> = vec![
        b'R', b'I', b'F', b'F', 40, 0, 0, 0, b'W', b'A', b'V', b'E', b'f', b'm', b't', b' ', 16, 0, 0, 0, 1, 0, 1,
        0, 0x80, 0x3e, 0, 0, 0x00, 0x7d, 0, 0, 2, 0, 16, 0, b'd', b'a', b't', b'a', 4, 0, 0, 0, 1, 0, 0xff, 0xff,
    ];
    assert_eq!(wav, expected);
}

#[test]
fn container_of_a_second_of_silence() {
    let wav = encode_wav(16000, &vec![0i16; 16000]).unwrap();
    assert_eq!(wav.len(), 44 + 32000);
    assert_eq!(&wav[4..8], &[0x24, 0x7d, 0x00, 0x00]);
    assert_eq!(&wav[40..44], &[0x00, 0x7d, 0x00, 0x00]);
    assert!(wav[44..].iter().all(|b| *b == 0));
}

#[test]
fn player_plays_what_was_enqueued_in_order() {
    let mut player = AudioPlayer::new();
    assert!(!player.is_playing());
    player.enqueue(&[1, 0, 2, 0, 3, 0]);
    player.enqueue(&[4, 0]);
    assert_eq!(player.queued_len(), 4);
    let out = player.render(3, 1);
    assert_eq!(out, vec![1, 2, 3]);
    assert!(player.is_playing());
    assert_eq!(player.queued_len(), 1);
    let out = player.render(3, 1);
    assert_eq!(out, vec![4, 0, 0]);
    assert!(player.is_playing());
    let out = player.render(3, 1);
    assert_eq!(out, vec![0, 0, 0]);
    assert!(!player.is_playing());
}

#[test]
fn player_copies_each_sample_to_every_channel() {
    let mut player = AudioPlayer::new();
    player.enqueue(&[5, 0, 6, 0, 7, 0]);
    let out = player.render(5, 2);
    assert_eq!(out, vec![5, 5, 6, 6, 0]);
    assert_eq!(player.queued_len(), 1);
}

#[test]
fn drained_count_equals_enqueued_count_when_drains_keep_pace() {
    let mut player = AudioPlayer::new();
    let mut enqueued = 0usize;
    let mut drained = 0usize;
    for round in 0..20usize {
        let bytes = vec![round as u8; 2 * (round % 7)];
        enqueued += bytes.len() / 2;
        player.enqueue(&bytes);
        let before = player.queued_len();
        let _ = player.render(8, 1);
        drained += before - player.queued_len();
    }
    assert_eq!(player.queued_len(), 0);
    assert_eq!(drained, enqueued);
}

#[test]
fn clear_makes_the_next_callback_silent() {
    let mut player = AudioPlayer::new();
    player.enqueue(&[9, 0, 9, 0, 9, 0, 9, 0]);
    let _ = player.render(2, 1);
    player.clear();
    assert_eq!(player.queued_len(), 0);
    assert_eq!(player.recent_window(1024), Vec::<i16>::new());
    assert_eq!(player.render(4, 2), vec![0, 0, 0, 0]);
    assert!(!player.is_playing());
}

#[test]
fn recent_output_keeps_the_last_2048() {
    let mut player = AudioPlayer::new();
    let mut bytes = Vec::new();
    for i in 0..3000u16 {
        bytes.extend_from_slice(&(i as i16).to_le_bytes());
    }
    player.enqueue(&bytes);
    let _ = player.render(3000, 1);
    let all = player.recent_window(usize::MAX);
    assert_eq!(all.len(), RECENT_CAPACITY);
    assert_eq!(all[0], 952);
    assert_eq!(all[2047], 2999);
    let window = player.recent_window(1024);
    assert_eq!(window.len(), 1024);
    assert_eq!(window[0], 1976);
}

#[test]
fn stop_before_start_is_not_recording() {
    let mut recorder = GroqRecorder::new(16000).unwrap();
    assert_eq!(recorder.stop_recording(), Err(CaptureError::NotRecording));
    assert_eq!(CaptureError::NotRecording.message(), "Not recording");
}

#[test]
fn start_twice_is_already_recording() {
    let mut recorder = GroqRecorder::new(16000).unwrap();
    assert_eq!(recorder.start_recording(Ok(())), Ok(()));
    assert!(recorder.is_recording());
    assert_eq!(recorder.start_recording(Ok(())), Err(CaptureError::AlreadyRecording));
    assert!(recorder.is_recording());
    assert_eq!(CaptureError::AlreadyRecording.message(), "Already recording");
}

#[test]
fn stop_without_samples_is_empty_capture() {
    let mut recorder = GroqRecorder::new(16000).unwrap();
    recorder.start_recording(Ok(())).unwrap();
    assert_eq!(recorder.stop_recording(), Err(CaptureError::EmptyCapture));
    assert!(!recorder.is_recording());
    assert_eq!(CaptureError::EmptyCapture.message(), "No audio captured");
}

#[test]
fn a_device_that_does_not_open_is_a_device_error() {
    let mut recorder = GroqRecorder::new(16000).unwrap();
    assert_eq!(
        recorder.start_recording(Err("No input device available".to_string())),
        Err(CaptureError::Device("No input device available".to_string()))
    );
    assert!(!recorder.is_recording());
    assert_eq!(CaptureError::Device("x".to_string()).message(), "x");
}

#[test]
fn stop_returns_the_container_of_what_was_captured() {
    let mut recorder = GroqRecorder::new(8000).unwrap();
    recorder.start_recording(Ok(())).unwrap();
    assert_eq!(recorder.capture_frame(&[1, 2]), None);
    assert_eq!(recorder.capture_frame(&[-3]), None);
    let wav = recorder.stop_recording().unwrap();
    assert_eq!(wav, encode_wav(8000, &[1, 2, -3]).unwrap());
    assert_eq!(&wav[24..28], &[0x40, 0x1f, 0, 0]);
    assert_eq!(decode_samples(&wav[44..]), vec![1, 2, -3]);
}

#[test]
fn a_new_recording_drops_the_old_audio() {
    let mut recorder = GroqRecorder::new(16000).unwrap();
    recorder.start_recording(Ok(())).unwrap();
    recorder.capture_frame(&[1, 2, 3]);
    recorder.stop_recording().unwrap();
    recorder.start_recording(Ok(())).unwrap();
    recorder.capture_frame(&[4]);
    assert_eq!(recorder.stop_recording().unwrap(), encode_wav(16000, &[4]).unwrap());
}

#[test]
fn frames_outside_a_recording_are_dropped() {
    let mut recorder = GroqRecorder::new(16000).unwrap();
    recorder.set_streaming_callback(true);
    assert_eq!(recorder.capture_frame(&[1, 2, 3]), None);
    recorder.start_recording(Ok(())).unwrap();
    assert_eq!(recorder.stop_recording(), Err(CaptureError::EmptyCapture));
}

#[test]
fn the_streaming_sink_sees_the_frame_that_was_buffered() {
    let mut recorder = GroqRecorder::new(16000).unwrap();
    recorder.set_streaming_callback(true);
    recorder.start_recording(Ok(())).unwrap();
    assert_eq!(recorder.capture_frame(&[1, -1]), Some(vec![1, 0, 0xff, 0xff]));
    recorder.set_streaming_callback(false);
    assert_eq!(recorder.capture_frame(&[2]), None);
    assert_eq!(recorder.stop_recording().unwrap(), encode_wav(16000, &[1, -1, 2]).unwrap());
}

#[test]
fn a_recorder_needs_a_rate_the_container_can_state() {
    assert!(GroqRecorder::new(0).is_none());
    assert!(GroqRecorder::new(0x8000_0000).is_none());
    assert_eq!(GroqRecorder::new(44100).unwrap().sample_rate(), 44100);
}

#[test]
fn stopping_a_recording_with_samples_always_gives_its_container() {
    for n in [1usize, 3, 4, 1023, 48000] {
        let mut recorder = GroqRecorder::new(16000).unwrap();
        recorder.start_recording(Ok(())).unwrap();
        let samples: Vec<i16> = (0..n).map(|i| (i as i16).wrapping_mul(31)).collect();
        recorder.capture_frame(&samples);
        let wav = recorder.stop_recording().unwrap();
        assert_eq!(wav.len(), 44 + 2 * n);
        assert_eq!(decode_samples(&wav[44..]), samples);
        assert_eq!(&wav[40..44], &((2 * n) as u32).to_le_bytes());
    }
    assert!(encode_wav(1, &[]).is_some());
    assert!(encode_wav(0x7fff_ffff, &[0]).is_some());
}
