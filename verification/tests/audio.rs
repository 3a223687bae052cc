use whisperia::audio::{AudioRecorder, CaptureBuffer, DeviceProbe, SampleFormat};
use whisperia::error::PipelineError;

fn mix(a: f32, b: f32, num: u32, den: u32) -> f32 {
    let t = num as f64 / den as f64;
    a * (1.0 - t as f32) + b * t as f32
}

fn recorder(rate: u32, format: SampleFormat) -> AudioRecorder {
    match AudioRecorder::new(DeviceProbe::Ready { sample_rate: rate, format }) {
        Ok(recorder) => recorder,
        Err(error) => panic!("probe refused: {:?}", error),
    }
}

#[test]
fn missing_device_is_no_input_device() {
    assert_eq!(AudioRecorder::new(DeviceProbe::Missing).err(), Some(PipelineError::NoInputDevice));
}

#[test]
fn unreadable_device_is_config_error_with_its_detail() {
    let opened = AudioRecorder::new(DeviceProbe::Unreadable("backend gone".to_string()));
    assert_eq!(opened.err(), Some(PipelineError::DeviceConfigError("backend gone".to_string())));
}

#[test]
fn ready_device_opens_with_its_rate_and_format() {
    let session = recorder(48000, SampleFormat::I16);
    assert_eq!(session.sample_rate(), 48000);
    assert_eq!(session.sample_format(), SampleFormat::I16);
}

#[test]
fn capacity_is_rate_times_seconds() {
    assert_eq!(recorder(44100, SampleFormat::F32).capacity(5), 220500);
    assert_eq!(recorder(16000, SampleFormat::F32).capacity(0), 0);
    assert_eq!(recorder(0, SampleFormat::F32).capacity(10), 0);
    assert_eq!(recorder(u32::MAX, SampleFormat::F32).capacity(u64::MAX), usize::MAX);
}

#[test]
fn other_formats_are_unsupported() {
    let session = recorder(44100, SampleFormat::Other);
    assert_eq!(session.begin::<f32>(5).err(), Some(PipelineError::UnsupportedAudioFormat));
    assert_eq!(session.begin_unbounded::<f32>().err(), Some(PipelineError::UnsupportedAudioFormat));
}

#[test]
fn begin_hands_out_an_empty_buffer_of_the_right_capacity() {
    for format in [SampleFormat::F32, SampleFormat::I16] {
        let buffer = recorder(44100, format).begin::<f32>(5).unwrap();
        assert_eq!(buffer.len(), 0);
        assert_eq!(buffer.capacity(), 220500);
        assert!(!buffer.is_full());
    }
    let open_ended = recorder(44100, SampleFormat::F32).begin_unbounded::<f32>().unwrap();
    assert_eq!(open_ended.capacity(), usize::MAX);
}

#[test]
fn buffer_drops_what_does_not_fit() {
    let mut buffer: CaptureBuffer<f32> = CaptureBuffer::new(5);
    assert_eq!(buffer.extend(&[1.0, 2.0, 3.0]), 3);
    assert_eq!(buffer.len(), 3);
    assert_eq!(buffer.extend(&[4.0, 5.0, 6.0, 7.0]), 2);
    assert!(buffer.is_full());
    assert_eq!(buffer.extend(&[8.0]), 0);
    assert!(!buffer.push(9.0));
    assert_eq!(buffer.into_samples(), vec![1.0, 2.0, 3.0, 4.0, 5.0]);
}

#[test]
fn push_keeps_samples_until_full() {
    let mut buffer: CaptureBuffer<i16> = CaptureBuffer::new(2);
    assert!(buffer.push(7));
    assert!(buffer.push(8));
    assert!(!buffer.push(9));
    assert_eq!(buffer.len(), 2);
    assert_eq!(buffer.into_samples(), vec![7, 8]);
}

#[test]
fn zero_capacity_takes_nothing() {
    let mut buffer: CaptureBuffer<f32> = CaptureBuffer::new(0);
    assert!(buffer.is_full());
    assert_eq!(buffer.extend(&[1.0, 2.0]), 0);
    assert!(!buffer.push(1.0));
    assert_eq!(buffer.into_samples(), Vec::<f32>::new());
}

#[test]
fn mapped_extend_converts_integers_and_caps() {
    let mut buffer: CaptureBuffer<f32> = CaptureBuffer::new(3);
    let taken = buffer.extend_mapped(&[16384i16, -32768, 0, 32767], |s: i16| s as f32 / 32768.0);
    assert_eq!(taken, 3);
    assert_eq!(buffer.into_samples(), vec![0.5, -1.0, 0.0]);
}

#[test]
fn finish_resamples_to_the_engine_rate() {
    let session = recorder(44100, SampleFormat::F32);
    let mut buffer = session.begin::<f32>(5).unwrap();
    let block = vec![0.125f32; 44100];
    for _ in 0..6 {
        buffer.extend(&block);
    }
    assert_eq!(buffer.len(), 220500);
    let out = session.finish(buffer.into_samples(), mix);
    assert_eq!(out.len(), 80000);
}

#[test]
fn finish_leaves_samples_at_the_engine_rate_alone() {
    let session = recorder(16000, SampleFormat::F32);
    let samples = vec![0.1f32, 0.2, 0.3];
    assert_eq!(session.finish(samples.clone(), mix), samples);
}
