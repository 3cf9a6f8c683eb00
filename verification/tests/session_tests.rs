use std::io::Cursor;
use wav_recorder::sample::{DeviceFormat, RawBuffer, SampleFormat};
use wav_recorder::session::{
    after_setup_step, supervise, CaptureSession, DeviceProbe, SetupAction, SetupError, SetupStep,
    StreamConfig, Supervision, POLL_INTERVAL_MS,
};

fn ready(format: DeviceFormat, channels: u16, sample_rate: u32) -> DeviceProbe {
    DeviceProbe::Ready { format, config: StreamConfig { channels, sample_rate } }
}

fn open(format: DeviceFormat, channels: u16, sample_rate: u32) -> (CaptureSession, Vec<u8>) {
    match CaptureSession::open(ready(format, channels, sample_rate)) {
        Ok(opened) => opened,
        Err(error) => panic!("session did not open: {:?}", error),
    }
}

fn error_of(probe: DeviceProbe) -> SetupError {
    match CaptureSession::open(probe) {
        Ok(_) => panic!("session opened"),
        Err(error) => error,
    }
}

fn seal(file: &mut Vec<u8>, session: &mut CaptureSession) {
    let sealed = session.finish().expect("first finish");
    file[..sealed.len()].copy_from_slice(&sealed);
}

fn read_back(file: &[u8]) -> (hound::WavSpec, Vec<i16>) {
    let mut reader = hound::WavReader::new(Cursor::new(file.to_vec())).expect("a wav file");
    let spec = reader.spec();
    let mut samples = Vec::new();
    for sample in reader.samples::<i16>() {
        samples.push(sample.expect("a sample"));
    }
    (spec, samples)
}

#[test]
fn no_input_device_is_a_setup_error() {
    assert_eq!(error_of(DeviceProbe::NoDevice), SetupError::NoInputDevice);
}

#[test]
fn missing_configuration_is_a_setup_error() {
    assert_eq!(error_of(DeviceProbe::NoConfig), SetupError::ConfigUnavailable);
}

#[test]
fn unsupported_formats_are_a_setup_error() {
    for format in [
        DeviceFormat::I8,
        DeviceFormat::I32,
        DeviceFormat::I64,
        DeviceFormat::U8,
        DeviceFormat::U32,
        DeviceFormat::U64,
        DeviceFormat::F64,
        DeviceFormat::Other,
    ] {
        assert_eq!(error_of(ready(format, 1, 44100)), SetupError::UnsupportedFormat);
    }
}

#[test]
fn format_is_checked_before_the_numbers() {
    assert_eq!(error_of(ready(DeviceFormat::F64, 0, 0)), SetupError::UnsupportedFormat);
}

#[test]
fn invalid_configurations_are_a_setup_error() {
    assert_eq!(error_of(ready(DeviceFormat::F32, 0, 44100)), SetupError::InvalidConfig);
    assert_eq!(error_of(ready(DeviceFormat::I16, 2, 0)), SetupError::InvalidConfig);
    assert_eq!(error_of(ready(DeviceFormat::U16, 2, u32::MAX)), SetupError::InvalidConfig);
}

#[test]
fn setup_errors_in_words() {
    assert_eq!(SetupError::NoInputDevice.message(), "No input device available");
    assert_eq!(SetupError::ConfigUnavailable.message(), "No default input configuration");
    assert_eq!(SetupError::UnsupportedFormat.message(), "Unsupported sample format");
    assert_eq!(SetupError::InvalidConfig.message(), "Invalid stream configuration");
    assert_eq!(SetupError::ContainerNotCreated.message(), "Failed to create the recording file");
    assert_eq!(SetupError::StreamNotBuilt.message(), "Failed to build the input stream");
    assert_eq!(SetupError::StreamNotStarted.message(), "Failed to start the input stream");
}

#[test]
fn open_binds_format_and_configuration() {
    let (session, header) = open(DeviceFormat::U16, 2, 48000);
    assert_eq!(session.format(), SampleFormat::UnsignedInt16);
    assert_eq!(session.config(), StreamConfig { channels: 2, sample_rate: 48000 });
    assert_eq!(session.config().container_spec().channels, 2);
    assert_eq!(session.config().container_spec().sample_rate, 48000);
    assert_eq!(session.samples_recorded(), 0);
    assert!(!session.is_finished());
    assert_eq!(header.len(), 44);
}

#[test]
fn supervising_loop_waits_until_the_stop() {
    assert_eq!(POLL_INTERVAL_MS, 100);
    assert_eq!(supervise(true), Supervision::Wait { millis: 100 });
    assert_eq!(supervise(false), Supervision::Finalize);
}

#[test]
fn half_a_second_of_silence_at_44100_hz_mono_float() {
    let (mut session, header) = open(DeviceFormat::F32, 1, 44100);
    let mut file = header;
    let silence = [0.0f32.to_bits(); 441];
    for _ in 0..50 {
        file.extend(session.capture(true, RawBuffer::Float32(&silence)));
    }
    assert_eq!(session.samples_recorded(), 22050);
    match supervise(false) {
        Supervision::Finalize => seal(&mut file, &mut session),
        Supervision::Wait { .. } => panic!("stop was not seen"),
    }
    assert!(session.is_finished());
    assert_eq!(file.len(), 44 + 2 * 22050);
    let (spec, samples) = read_back(&file);
    assert_eq!(spec.channels, 1);
    assert_eq!(spec.sample_rate, 44100);
    assert_eq!(spec.bits_per_sample, 16);
    assert_eq!(spec.sample_format, hound::SampleFormat::Int);
    assert_eq!(samples.len(), 22050);
    assert!(samples.iter().all(|sample| *sample == 0));
}

#[test]
fn stop_right_after_start_gives_a_valid_empty_file() {
    let (mut session, header) = open(DeviceFormat::F32, 1, 44100);
    let mut file = header;
    seal(&mut file, &mut session);
    assert_eq!(file.len(), 44);
    assert_eq!(&file[4..8], &[36, 0, 0, 0]);
    assert_eq!(&file[40..44], &[0, 0, 0, 0]);
    let (spec, samples) = read_back(&file);
    assert_eq!(spec.sample_rate, 44100);
    assert!(samples.is_empty());
}

#[test]
fn buffers_after_the_stop_signal_are_dropped() {
    let (mut session, _) = open(DeviceFormat::I16, 1, 16000);
    assert_eq!(session.capture(true, RawBuffer::SignedInt16(&[1, 2])), vec![1, 0, 2, 0]);
    assert!(session.capture(false, RawBuffer::SignedInt16(&[3, 4])).is_empty());
    assert_eq!(session.samples_recorded(), 2);
    assert!(!session.is_finished());
}

#[test]
fn buffers_of_another_format_are_dropped() {
    let (mut session, _) = open(DeviceFormat::I16, 1, 16000);
    assert!(session.capture(true, RawBuffer::UnsignedInt16(&[1, 2])).is_empty());
    assert!(session.capture(true, RawBuffer::Float32(&[0])).is_empty());
    assert_eq!(session.samples_recorded(), 0);
}

#[test]
fn buffers_after_finish_are_dropped_and_finish_is_final() {
    let (mut session, _) = open(DeviceFormat::U16, 2, 16000);
    session.capture(true, RawBuffer::UnsignedInt16(&[0, 65535]));
    assert!(session.finish().is_some());
    assert!(session.capture(true, RawBuffer::UnsignedInt16(&[1, 2])).is_empty());
    assert!(session.finish().is_none());
    assert_eq!(session.samples_recorded(), 2);
    assert!(session.is_finished());
}

#[test]
fn every_format_is_converted_on_capture() {
    let (mut floats, _) = open(DeviceFormat::F32, 1, 8000);
    let data = [1.0f32.to_bits(), (-1.0f32).to_bits(), 0.5f32.to_bits()];
    assert_eq!(
        floats.capture(true, RawBuffer::Float32(&data)),
        vec![0xff, 0x7f, 0x01, 0x80, 0xff, 0x3f]
    );

    let (mut signed, _) = open(DeviceFormat::I16, 1, 8000);
    assert_eq!(signed.capture(true, RawBuffer::SignedInt16(&[-2, 258])), vec![0xfe, 0xff, 2, 1]);

    let (mut unsigned, _) = open(DeviceFormat::U16, 1, 8000);
    assert_eq!(
        unsigned.capture(true, RawBuffer::UnsignedInt16(&[0, 32768, 65535])),
        vec![0x00, 0x80, 0x00, 0x00, 0xff, 0x7f]
    );
}

#[test]
fn repeated_sessions_each_give_a_valid_file() {
    let mut path_content: Vec<u8> = Vec::new();
    for round in 1..=5i16 {
        let (mut session, header) = open(DeviceFormat::I16, 2, 22050);
        let mut file = header;
        let buffer: Vec<i16> = (0..(round * 20)).map(|i| i * round).collect();
        file.extend(session.capture(true, RawBuffer::SignedInt16(&buffer)));
        seal(&mut file, &mut session);
        assert!(session.finish().is_none());
        path_content = file;
        let (spec, samples) = read_back(&path_content);
        assert_eq!(spec.channels, 2);
        assert_eq!(spec.sample_rate, 22050);
        assert_eq!(samples, buffer);
    }
    let (_, last) = read_back(&path_content);
    assert_eq!(last.len(), 100);
}

#[test]
fn stereo_unsigned_recording_is_read_back() {
    let (mut session, header) = open(DeviceFormat::U16, 2, 48000);
    let mut file = header;
    let first = [0u16, 65535, 32768, 32769];
    let second = [100u16, 40000];
    file.extend(session.capture(true, RawBuffer::UnsignedInt16(&first)));
    file.extend(session.capture(true, RawBuffer::UnsignedInt16(&second)));
    seal(&mut file, &mut session);
    let (spec, samples) = read_back(&file);
    assert_eq!(spec.channels, 2);
    assert_eq!(samples, vec![-32768, 32767, 0, 1, -32668, 7232]);
}

#[test]
fn setup_goes_step_by_step_to_recording() {
    assert_eq!(
        after_setup_step(SetupStep::CreateFile, true),
        SetupAction::Continue(SetupStep::BuildStream)
    );
    assert_eq!(
        after_setup_step(SetupStep::BuildStream, true),
        SetupAction::Continue(SetupStep::StartStream)
    );
    assert_eq!(after_setup_step(SetupStep::StartStream, true), SetupAction::Record);
}

#[test]
fn failed_setup_step_aborts_and_leaves_no_file_behind() {
    assert_eq!(
        after_setup_step(SetupStep::CreateFile, false),
        SetupAction::Abort { error: SetupError::ContainerNotCreated, remove_file: false }
    );
    assert_eq!(
        after_setup_step(SetupStep::BuildStream, false),
        SetupAction::Abort { error: SetupError::StreamNotBuilt, remove_file: true }
    );
    assert_eq!(
        after_setup_step(SetupStep::StartStream, false),
        SetupAction::Abort { error: SetupError::StreamNotStarted, remove_file: true }
    );
}
