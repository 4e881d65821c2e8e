use pitch_tracker::{
    quantize, quantize_all, step, DropAction, RecordingSink, SessionAction, SessionEvent,
    SessionState, SinkError, WavFormat, UNITY,
};
use std::io::Cursor;

fn fixed(x: f32) -> i32 {
    (x as f64 * UNITY as f64) as i32
}

#[test]
fn quantize_scales_truncates_and_clamps() {
    assert_eq!(quantize(0), 0);
    assert_eq!(quantize(UNITY), 32767);
    assert_eq!(quantize(-UNITY), -32767);
    assert_eq!(quantize(UNITY / 2), 16383);
    assert_eq!(quantize(-UNITY / 2), -16383);
    assert_eq!(quantize(2 * UNITY), 32767);
    assert_eq!(quantize(-3 * UNITY), -32768);
    assert_eq!(quantize(i32::MIN), -32768);
}

#[test]
fn sink_round_trip_through_wav() {
    let format = WavFormat::reference();
    let mut sink = RecordingSink::open(format).unwrap();
    let input: Vec<f32> = vec![0.0, 0.5, -0.5, 1.0, -1.0, 0.25, 1.5, -2.0, 0.001];
    let samples: Vec<i32> = input.iter().map(|&x| fixed(x)).collect();
    let spec = hound::WavSpec {
        channels: format.channels,
        sample_rate: format.sample_rate,
        bits_per_sample: format.bits_per_sample,
        sample_format: hound::SampleFormat::Int,
    };
    let mut bytes: Vec<u8> = Vec::new();
    {
        let mut writer = hound::WavWriter::new(Cursor::new(&mut bytes), spec).unwrap();
        for s in sink.write(&samples).unwrap() {
            writer.write_sample(s).unwrap();
        }
        sink.finalize().unwrap();
        writer.finalize().unwrap();
    }
    let mut reader = hound::WavReader::new(Cursor::new(bytes)).unwrap();
    let back: Vec<i16> = reader.samples::<i16>().map(|s| s.unwrap()).collect();
    assert_eq!(back.len(), input.len());
    for (x, y) in input.iter().zip(back.iter()) {
        let want = (x * 32767.0).round().clamp(-32768.0, 32767.0) as i32;
        assert!((*y as i32 - want).abs() <= 1, "{} -> {}", x, y);
    }
}

#[test]
fn no_writes_after_finalize() {
    let mut sink = RecordingSink::open(WavFormat::reference()).unwrap();
    assert_eq!(sink.write(&vec![UNITY]).unwrap(), vec![32767]);
    assert_eq!(sink.finalize(), Ok(()));
    assert!(sink.finalized());
    assert_eq!(sink.write(&vec![UNITY / 2]), Err(SinkError::ClosedSink));
    assert_eq!(sink.write(&vec![]), Err(SinkError::ClosedSink));
    assert_eq!(sink.finalize(), Err(SinkError::ClosedSink));
    assert_eq!(sink.drop_action(), DropAction::Nothing);
}

#[test]
fn open_refuses_bad_formats() {
    let bad = [
        WavFormat { channels: 0, sample_rate: 44100, bits_per_sample: 16 },
        WavFormat { channels: 1, sample_rate: 0, bits_per_sample: 16 },
        WavFormat { channels: 1, sample_rate: 44100, bits_per_sample: 24 },
    ];
    for f in bad {
        assert!(matches!(RecordingSink::open(f), Err(SinkError::Format)));
    }
    let ok = RecordingSink::open(WavFormat { channels: 2, sample_rate: 48000, bits_per_sample: 16 });
    assert!(ok.is_ok());
}

#[test]
fn dropped_sink_finalizes_only_with_samples() {
    let mut sink = RecordingSink::open(WavFormat::reference()).unwrap();
    assert_eq!(sink.drop_action(), DropAction::Discard);
    assert_eq!(sink.write(&vec![]).unwrap(), Vec::<i16>::new());
    assert_eq!(sink.drop_action(), DropAction::Discard);
    sink.write(&vec![1, 2]).unwrap();
    assert_eq!(sink.drop_action(), DropAction::Finalize);
}

#[test]
fn quantize_all_maps_each_sample() {
    assert_eq!(quantize_all(&vec![UNITY, 0, -UNITY]), vec![32767, 0, -32767]);
}

#[test]
fn session_drains_then_finalizes() {
    let mut s = SessionState::Running;
    let (n, a) = step(s, SessionEvent::FrameReady);
    assert_eq!((n, a), (SessionState::Running, SessionAction::Analyze));
    assert_eq!(step(s, SessionEvent::QueueEmpty), (SessionState::Running, SessionAction::Wait));
    s = step(s, SessionEvent::StopRequested).0;
    assert_eq!(s, SessionState::Draining);
    assert_eq!(step(s, SessionEvent::FrameReady), (SessionState::Draining, SessionAction::Analyze));
    let (n, a) = step(s, SessionEvent::QueueEmpty);
    assert_eq!((n, a), (SessionState::Finished, SessionAction::Finalize));
    assert_eq!(step(n, SessionEvent::FrameReady), (SessionState::Finished, SessionAction::Idle));
}

#[test]
fn session_faults_finalize_at_once() {
    for e in [SessionEvent::StreamFault, SessionEvent::SinkFault] {
        assert_eq!(step(SessionState::Running, e), (SessionState::Finished, SessionAction::Finalize));
        assert_eq!(step(SessionState::Draining, e), (SessionState::Finished, SessionAction::Finalize));
    }
}
