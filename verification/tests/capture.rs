use std::io::Cursor;

use loopcap::buffer::SampleBuffer;
use loopcap::clock::current_timestamp;
use loopcap::engine::{engine_step, packet_data_size, LoopMode, StreamCommand};
use loopcap::format::FormatDescriptor;
use loopcap::samples::{decode_s16, decode_s24, decode_s32, decode_samples, decode_u32, SampleValue};
use loopcap::session::{finish_session, wav_filename, StopOutcome, Timestamp};
use loopcap::state::{RecordingController, RecordingState};
use loopcap::wav::{encode_wav, EncodeError};

fn fmt_16_stereo() -> FormatDescriptor {
    FormatDescriptor::new(2, 44100, 16, false).unwrap()
}

#[test]
fn toggles_alternate_from_idle() {
    let mut c = RecordingController::new();
    assert_eq!(c.current_state(), RecordingState::Idle);
    assert_eq!(c.toggle(), RecordingState::Listening);
    assert_eq!(c.current_state(), RecordingState::Listening);
    assert_eq!(c.toggle(), RecordingState::Idle);
    assert_eq!(c.toggle(), RecordingState::Listening);
    assert_eq!(c.toggle(), RecordingState::Idle);
    assert_eq!(c.toggle(), RecordingState::Listening);
    assert_eq!(c.current_state(), RecordingState::Listening);
}

#[test]
fn drain_returns_appends_in_order() {
    let mut b = SampleBuffer::new();
    assert!(b.is_empty());
    b.append(&[1, 2, 3]);
    b.append(&[4, 5]);
    b.append(&[]);
    b.append(&[6]);
    assert_eq!(b.len(), 6);
    let drained = b.drain_and_clear();
    assert_eq!(drained, vec![1, 2, 3, 4, 5, 6]);
    assert!(b.is_empty());
    assert_eq!(b.drain_and_clear(), Vec::<u8>::new());
}

#[test]
fn drained_length_is_frame_aligned() {
    let fmt = fmt_16_stereo();
    let frame = fmt.frame_size();
    assert_eq!(frame, 4);
    let mut b = SampleBuffer::new();
    // two packets of whole frames: 2 frames and 3 frames
    b.append(&[0; 8]);
    b.append(&[1; 12]);
    let drained = b.drain_and_clear();
    assert_eq!(drained.len() % frame, 0);
}

#[test]
fn wav_roundtrip_16_bit() {
    let values: Vec<i16> = vec![0, 1000, -1000, 32767, -32768, 12345];
    let mut data: Vec<u8> = Vec::new();
    for v in &values {
        let b = v.to_le_bytes();
        data.push(b[0]);
        data.push(b[1]);
    }
    let fmt = FormatDescriptor::new(1, 44100, 16, false).unwrap();
    let bytes = encode_wav(&fmt, &data).unwrap();
    let mut reader = hound::WavReader::new(Cursor::new(bytes)).unwrap();
    let spec = reader.spec();
    assert_eq!(spec.channels, 1);
    assert_eq!(spec.sample_rate, 44100);
    assert_eq!(spec.bits_per_sample, 16);
    assert_eq!(spec.sample_format, hound::SampleFormat::Int);
    let read_back: Vec<i16> = reader.samples::<i16>().map(|s| s.unwrap()).collect();
    assert_eq!(read_back, values);
    let step = 1.0f32 / 32767.0;
    for (r, v) in read_back.iter().zip(values.iter()) {
        let normalized = *r as f32 / 32767.0;
        let expected = *v as f32 / 32767.0;
        assert!((normalized - expected).abs() <= step);
    }
}

#[test]
fn empty_stop_produces_no_file() {
    let mut b = SampleBuffer::new();
    let fmt = fmt_16_stereo();
    let t = Timestamp::new(2024, 1, 2, 3, 4, 5).unwrap();
    let outcome = finish_session(&mut b, &fmt, &t);
    assert!(matches!(outcome, StopOutcome::NoAudioData));
    assert!(b.is_empty());
}

#[test]
fn two_packets_make_one_file() {
    // start session: 16-bit stereo at 44100 Hz, two packets, 9600 bytes
    let fmt = fmt_16_stereo();
    let mut b = SampleBuffer::new();
    let mut packet: Vec<u8> = Vec::new();
    for i in 0..4800 {
        packet.push((i % 251) as u8);
    }
    b.append(&packet);
    b.append(&packet);
    assert_eq!(b.len(), 9600);
    let t = Timestamp::new(2024, 1, 2, 3, 4, 5).unwrap();
    let outcome = finish_session(&mut b, &fmt, &t);
    let job = match outcome {
        StopOutcome::Save(job) => job,
        _ => panic!("expected a save job"),
    };
    assert_eq!(job.filename, "captures/20240102T030405.wav");
    assert!(b.is_empty());
    let mut reader = hound::WavReader::new(Cursor::new(job.bytes)).unwrap();
    let spec = reader.spec();
    assert_eq!(spec.channels, 2);
    assert_eq!(spec.sample_rate, 44100);
    assert_eq!(spec.bits_per_sample, 16);
    assert_eq!(spec.sample_format, hound::SampleFormat::Int);
    // exactly 2400 interleaved frames of payload
    assert_eq!(reader.duration(), 2400);
    assert_eq!(reader.len(), 4800);
    let first: i16 = reader.samples::<i16>().next().unwrap().unwrap();
    assert_eq!(first, i16::from_le_bytes([0, 1]));
}

#[test]
fn min_24_bit_sample_is_minus_one() {
    let fmt = FormatDescriptor::new(1, 48000, 24, false).unwrap();
    let data: Vec<u8> = vec![0x00, 0x00, 0x80];
    let samples = decode_samples(&data, &fmt);
    assert_eq!(samples, vec![SampleValue::Pcm { value: -8388608, divisor: 8388607 }]);
    let normalized = -8388608f32 / 8388607.0;
    assert!((normalized - (-1.0)).abs() <= 1.0e-6);
}

#[test]
fn rapid_toggles_without_packets() {
    let mut c = RecordingController::new();
    assert_eq!(c.toggle(), RecordingState::Listening);
    // no packet is delivered before the next toggle
    assert_eq!(c.toggle(), RecordingState::Idle);
    let mut b = SampleBuffer::new();
    let fmt = fmt_16_stereo();
    let t = Timestamp::new(2024, 1, 2, 3, 4, 5).unwrap();
    let outcome = finish_session(&mut b, &fmt, &t);
    assert!(matches!(outcome, StopOutcome::NoAudioData));
}

#[test]
fn filename_carries_the_stop_time() {
    let t = Timestamp::new(1999, 12, 31, 23, 59, 58).unwrap();
    assert_eq!(wav_filename(&t), "captures/19991231T235958.wav");
    let t2 = Timestamp::new(205, 6, 7, 8, 9, 0).unwrap();
    assert_eq!(wav_filename(&t2), "captures/02050607T080900.wav");
}

#[test]
fn timestamp_rejects_bad_fields() {
    assert!(Timestamp::new(10000, 1, 1, 0, 0, 0).is_none());
    assert!(Timestamp::new(2024, 0, 1, 0, 0, 0).is_none());
    assert!(Timestamp::new(2024, 13, 1, 0, 0, 0).is_none());
    assert!(Timestamp::new(2024, 1, 32, 0, 0, 0).is_none());
    assert!(Timestamp::new(2024, 1, 1, 24, 0, 0).is_none());
    assert!(Timestamp::new(2024, 1, 1, 0, 60, 0).is_none());
    assert!(Timestamp::new(2024, 1, 1, 0, 0, 60).is_none());
}

#[test]
fn clock_gives_a_usable_stop_time() {
    let t = current_timestamp().expect("the clock's year fits four digits");
    let name = wav_filename(&t);
    assert_eq!(name.len(), 28);
    assert!(name.starts_with("captures/"));
    assert!(name.ends_with(".wav"));
    let digits = &name[9..24];
    assert!(digits[..8].chars().all(|c| c.is_ascii_digit()));
    assert_eq!(&digits[8..9], "T");
    assert!(digits[9..].chars().all(|c| c.is_ascii_digit()));
}

#[test]
fn unsupported_formats_are_rejected() {
    assert!(FormatDescriptor::new(2, 44100, 8, false).is_none());
    assert!(FormatDescriptor::new(0, 44100, 16, false).is_none());
    assert!(FormatDescriptor::new(2, 44100, 16, true).is_none());
    let bad = FormatDescriptor {
        channel_count: 2,
        sample_rate: 44100,
        bits_per_sample: 8,
        is_float_encoded: false,
    };
    let data: Vec<u8> = vec![0, 0, 0, 0];
    assert_eq!(encode_wav(&bad, &data), Err(EncodeError::UnsupportedFormat));
}

#[test]
fn misaligned_data_is_rejected() {
    let fmt = fmt_16_stereo();
    let data: Vec<u8> = vec![0, 1, 2, 3, 4];
    assert_eq!(encode_wav(&fmt, &data), Err(EncodeError::MisalignedData));
}

#[test]
fn engine_issues_transitions_on_edges_only() {
    let started = engine_step(false, true);
    assert_eq!(started.command, StreamCommand::Start);
    assert_eq!(started.mode, LoopMode::PollPackets);
    assert!(started.stream_active);

    let running = engine_step(started.stream_active, true);
    assert_eq!(running.command, StreamCommand::Keep);
    assert_eq!(running.mode, LoopMode::PollPackets);

    let stopped = engine_step(running.stream_active, false);
    assert_eq!(stopped.command, StreamCommand::Stop);
    assert_eq!(stopped.mode, LoopMode::SleepIdle);
    assert!(!stopped.stream_active);

    let idle = engine_step(stopped.stream_active, false);
    assert_eq!(idle.command, StreamCommand::Keep);
    assert_eq!(idle.mode, LoopMode::SleepIdle);
}

#[test]
fn packet_sizes_count_whole_frames() {
    let fmt = fmt_16_stereo();
    assert_eq!(packet_data_size(1200, &fmt), Some(4800));
    assert_eq!(packet_data_size(0, &fmt), Some(0));
}

#[test]
fn samples_decode_exactly() {
    assert_eq!(decode_s16(0xff, 0x7f), 32767);
    assert_eq!(decode_s16(0x00, 0x80), -32768);
    assert_eq!(decode_s16(0x34, 0x12), 0x1234);
    assert_eq!(decode_s24(0xff, 0xff, 0x7f), 8388607);
    assert_eq!(decode_s24(0x00, 0x00, 0x80), -8388608);
    assert_eq!(decode_s32(0xff, 0xff, 0xff, 0x7f), i32::MAX);
    assert_eq!(decode_s32(0x00, 0x00, 0x00, 0x80), i32::MIN);
    assert_eq!(decode_u32(0x78, 0x56, 0x34, 0x12), 0x12345678);
}

#[test]
fn float_samples_keep_their_bits() {
    let fmt = FormatDescriptor::new(1, 48000, 32, true).unwrap();
    let one = 1.0f32.to_le_bytes();
    let half = (-0.5f32).to_le_bytes();
    let mut data: Vec<u8> = Vec::new();
    data.extend_from_slice(&one);
    data.extend_from_slice(&half);
    let samples = decode_samples(&data, &fmt);
    assert_eq!(samples.len(), 2);
    match samples[0] {
        SampleValue::FloatBits(bits) => assert_eq!(f32::from_bits(bits), 1.0),
        _ => panic!("expected float bits"),
    }
    match samples[1] {
        SampleValue::FloatBits(bits) => assert_eq!(f32::from_bits(bits), -0.5),
        _ => panic!("expected float bits"),
    }
}

#[test]
fn pcm_32_bit_normalizes_by_max() {
    let fmt = FormatDescriptor::new(1, 48000, 32, false).unwrap();
    let data: Vec<u8> = vec![0xff, 0xff, 0xff, 0x7f];
    let samples = decode_samples(&data, &fmt);
    assert_eq!(samples, vec![SampleValue::Pcm { value: i32::MAX, divisor: 2147483647 }]);
}
