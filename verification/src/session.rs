//! One capture session: from the report on the input device to the sealed
//! container.
//!
//! The session performs no I/O. Its host asks the device, creates the file,
//! builds and starts the stream, sleeps between polls and writes the bytes;
//! the session decides what is recorded and what is written.

use crate::container::{
    declared_bits,
    declared_channels,
    declared_data_bytes,
    declared_riff_bytes,
    declared_sample_rate,
    declared_samples,
    declares_integer_pcm,
    encode_samples,
    lemma_finalize_is_final,
    lemma_finalized_image_is_consistent,
    lemma_transitions_keep_wf,
    ContainerSpec,
    ContainerView,
    ContainerWriter,
    WriterState,
    BITS_PER_SAMPLE,
};
use crate::sample::{DeviceFormat, RawBuffer, SampleFormat};
use vstd::prelude::*;

verus! {

/// Milliseconds between two looks at the stop signal.
pub const POLL_INTERVAL_MS: u64 = 100;

/// What the input device delivers: channel count and sample rate.
#[derive(Clone, Copy, Debug, PartialEq, Eq, Structural)]
pub struct StreamConfig {
    pub channels: u16,
    pub sample_rate: u32,
}

impl StreamConfig {
    /// The container spec for a stream of this configuration.
    pub open spec fn spec_container_spec(self) -> ContainerSpec {
        ContainerSpec { channels: self.channels, sample_rate: self.sample_rate }
    }

    /// The container spec for a stream of this configuration: the same
    /// channel count and sample rate, with 16-bit integer samples.
    pub fn container_spec(&self) -> (spec: ContainerSpec)
        ensures
            spec == self.spec_container_spec(),
    {
        ContainerSpec { channels: self.channels, sample_rate: self.sample_rate }
    }
}

/// What the host learned when it asked for the default input device.
#[derive(Clone, Copy, Debug, PartialEq, Eq, Structural)]
pub enum DeviceProbe {
    /// There is no input device.
    NoDevice,
    /// There is a device, but it did not give its default configuration.
    NoConfig,
    /// The device and its default configuration.
    Ready { format: DeviceFormat, config: StreamConfig },
}

/// Why a session did not start.
#[derive(Clone, Copy, Debug, PartialEq, Eq, Structural)]
pub enum SetupError {
    NoInputDevice,
    ConfigUnavailable,
    UnsupportedFormat,
    InvalidConfig,
    /// The host could not create the container file.
    ContainerNotCreated,
    /// The host could not build the input stream.
    StreamNotBuilt,
    /// The host could not start the input stream.
    StreamNotStarted,
}

impl SetupError {
    /// The error in words.
    pub open spec fn spec_message(self) -> Seq<char> {
        match self {
            SetupError::NoInputDevice => "No input device available"@,
            SetupError::ConfigUnavailable => "No default input configuration"@,
            SetupError::UnsupportedFormat => "Unsupported sample format"@,
            SetupError::InvalidConfig => "Invalid stream configuration"@,
            SetupError::ContainerNotCreated => "Failed to create the recording file"@,
            SetupError::StreamNotBuilt => "Failed to build the input stream"@,
            SetupError::StreamNotStarted => "Failed to start the input stream"@,
        }
    }

    /// The error in words.
    pub fn message(&self) -> (message: String)
        ensures
            message@ == self.spec_message(),
    {
        match self {
            SetupError::NoInputDevice => "No input device available".to_owned(),
            SetupError::ConfigUnavailable => "No default input configuration".to_owned(),
            SetupError::UnsupportedFormat => "Unsupported sample format".to_owned(),
            SetupError::InvalidConfig => "Invalid stream configuration".to_owned(),
            SetupError::ContainerNotCreated => "Failed to create the recording file".to_owned(),
            SetupError::StreamNotBuilt => "Failed to build the input stream".to_owned(),
            SetupError::StreamNotStarted => "Failed to start the input stream".to_owned(),
        }
    }
}

/// The format and configuration to record with, or the reason why the device
/// cannot be recorded from. The device is looked at first, then its
/// configuration, then the sample format, then the numbers.
pub open spec fn plan(probe: DeviceProbe) -> Result<(SampleFormat, StreamConfig), SetupError> {
    match probe {
        DeviceProbe::NoDevice => Err(SetupError::NoInputDevice),
        DeviceProbe::NoConfig => Err(SetupError::ConfigUnavailable),
        DeviceProbe::Ready { format, config } => match SampleFormat::spec_from_device(format) {
            None => Err(SetupError::UnsupportedFormat),
            Some(chosen) => if config.spec_container_spec().valid() {
                Ok((chosen, config))
            } else {
                Err(SetupError::InvalidConfig)
            },
        },
    }
}

/// What the host does, in this order, between opening a session and
/// recording.
#[derive(Clone, Copy, Debug, PartialEq, Eq, Structural)]
pub enum SetupStep {
    /// Create the file and write the header to it.
    CreateFile,
    /// Build the input stream, bound to the format of the session.
    BuildStream,
    /// Start the stream.
    StartStream,
}

/// What follows a step of the setup.
#[derive(Clone, Copy, Debug, PartialEq, Eq, Structural)]
pub enum SetupAction {
    /// Go on with the next step.
    Continue(SetupStep),
    /// The stream runs: report success and supervise.
    Record,
    /// Give the session up and report `error`. Where `remove_file` is set the
    /// file exists and holds no recording: it is removed.
    Abort { error: SetupError, remove_file: bool },
}

/// What follows a step of the setup: the next step after a success, the end
/// of the session after a failure. No step is tried after one that failed,
/// and a file that was created is not left behind.
pub open spec fn spec_after_setup_step(step: SetupStep, succeeded: bool) -> SetupAction {
    match (step, succeeded) {
        (SetupStep::CreateFile, true) => SetupAction::Continue(SetupStep::BuildStream),
        (SetupStep::CreateFile, false) => SetupAction::Abort {
            error: SetupError::ContainerNotCreated,
            remove_file: false,
        },
        (SetupStep::BuildStream, true) => SetupAction::Continue(SetupStep::StartStream),
        (SetupStep::BuildStream, false) => SetupAction::Abort {
            error: SetupError::StreamNotBuilt,
            remove_file: true,
        },
        (SetupStep::StartStream, true) => SetupAction::Record,
        (SetupStep::StartStream, false) => SetupAction::Abort {
            error: SetupError::StreamNotStarted,
            remove_file: true,
        },
    }
}

/// Decides what follows a step of the setup.
pub fn after_setup_step(step: SetupStep, succeeded: bool) -> (action: SetupAction)
    ensures
        action == spec_after_setup_step(step, succeeded),
{
    match step {
        SetupStep::CreateFile => if succeeded {
            SetupAction::Continue(SetupStep::BuildStream)
        } else {
            SetupAction::Abort { error: SetupError::ContainerNotCreated, remove_file: false }
        },
        SetupStep::BuildStream => if succeeded {
            SetupAction::Continue(SetupStep::StartStream)
        } else {
            SetupAction::Abort { error: SetupError::StreamNotBuilt, remove_file: true }
        },
        SetupStep::StartStream => if succeeded {
            SetupAction::Record
        } else {
            SetupAction::Abort { error: SetupError::StreamNotStarted, remove_file: true }
        },
    }
}

/// What the supervising loop does next.
#[derive(Clone, Copy, Debug, PartialEq, Eq, Structural)]
pub enum Supervision {
    /// Sleep for so many milliseconds, then look at the stop signal again.
    Wait { millis: u64 },
    /// Drop the stream and finish the session.
    Finalize,
}

/// The step of the supervising loop after a look at the stop signal.
pub fn supervise(recording: bool) -> (next: Supervision)
    ensures
        next == (if recording {
            Supervision::Wait { millis: POLL_INTERVAL_MS }
        } else {
            Supervision::Finalize
        }),
{
    if recording {
        Supervision::Wait { millis: POLL_INTERVAL_MS }
    } else {
        Supervision::Finalize
    }
}

/// The mathematical state of a session.
pub struct SessionView {
    pub format: SampleFormat,
    pub container: ContainerView,
}

impl SessionView {
    /// A session is well formed when its container is.
    pub open spec fn wf(self) -> bool {
        self.container.wf()
    }

    /// The configuration of the stream that is recorded.
    pub open spec fn config(self) -> StreamConfig {
        StreamConfig {
            channels: self.container.spec.channels,
            sample_rate: self.container.spec.sample_rate,
        }
    }

    /// Whether a buffer is recorded: only while recording goes on, and only
    /// in the format of the session.
    pub open spec fn accepts(self, recording: bool, buffer: RawBuffer) -> bool {
        recording && buffer.spec_format() == self.format
    }

    /// The state after a buffer arrives.
    pub open spec fn capture(self, recording: bool, buffer: RawBuffer) -> SessionView {
        if self.accepts(recording, buffer) {
            SessionView { container: self.container.append_all(buffer.pcm()), ..self }
        } else {
            self
        }
    }

    /// The bytes to append to the file when a buffer arrives.
    pub open spec fn captured_bytes(self, recording: bool, buffer: RawBuffer) -> Seq<u8> {
        if self.accepts(recording, buffer) {
            encode_samples(self.container.taken(buffer.pcm()))
        } else {
            Seq::empty()
        }
    }

    /// The state after the session is finished.
    pub open spec fn finish(self) -> SessionView {
        SessionView { container: self.container.finalize(), ..self }
    }
}

/// One recording, from the first buffer to the sealed container.
pub struct CaptureSession {
    format: SampleFormat,
    writer: ContainerWriter,
}

impl View for CaptureSession {
    type V = SessionView;

    closed spec fn view(&self) -> SessionView {
        SessionView { format: self.format, container: self.writer@ }
    }
}

impl CaptureSession {
    /// Opens a session for the device that the host found. On success the
    /// session comes with the header that the host writes to the new file.
    pub fn open(probe: DeviceProbe) -> (opened: Result<(CaptureSession, Vec<u8>), SetupError>)
        ensures
            match plan(probe) {
                Ok((format, config)) => {
                    &&& opened matches Ok((session, header))
                    &&& session@.format == format
                    &&& session@.config() == config
                    &&& session@.wf()
                    &&& session@.container.is_fresh()
                    &&& header@ == session@.container.header()
                },
                Err(error) => opened matches Err(e) && e == error,
            },
    {
        match probe {
            DeviceProbe::NoDevice => Err(SetupError::NoInputDevice),
            DeviceProbe::NoConfig => Err(SetupError::ConfigUnavailable),
            DeviceProbe::Ready { format, config } => {
                match SampleFormat::from_device(format) {
                    None => Err(SetupError::UnsupportedFormat),
                    Some(chosen) => {
                        match ContainerWriter::create(config.container_spec()) {
                            None => Err(SetupError::InvalidConfig),
                            Some((writer, header)) => {
                                Ok((CaptureSession { format: chosen, writer }, header))
                            },
                        }
                    },
                }
            },
        }
    }

    /// The sample format that the session records.
    pub fn format(&self) -> (format: SampleFormat)
        ensures
            format == self@.format,
    {
        self.format
    }

    /// The configuration of the stream that the session records.
    pub fn config(&self) -> (config: StreamConfig)
        ensures
            config == self@.config(),
    {
        let spec = self.writer.spec();
        StreamConfig { channels: spec.channels, sample_rate: spec.sample_rate }
    }

    /// The number of samples recorded so far.
    pub fn samples_recorded(&self) -> (count: u32)
        ensures
            count == self@.container.samples.len(),
            self@.wf(),
    {
        self.writer.len()
    }

    /// Whether the session has been finished.
    pub fn is_finished(&self) -> (finished: bool)
        ensures
            finished == !self@.container.open,
    {
        match self.writer.state() {
            WriterState::Open => false,
            WriterState::Finalized => true,
        }
    }

    /// Takes one buffer from the device and returns the bytes to append to
    /// the file. Once the stop signal is set (`recording` is false) nothing
    /// is recorded and nothing is returned; the same holds for a buffer of
    /// another format than the session's, and after `finish`.
    pub fn capture(&mut self, recording: bool, buffer: RawBuffer) -> (bytes: Vec<u8>)
        ensures
            final(self)@ == old(self)@.capture(recording, buffer),
            final(self)@.wf(),
            bytes@ == old(self)@.captured_bytes(recording, buffer),
    {
        proof {
            use_type_invariant(&self.writer);
            self.writer.lemma_inv_wf();
        }
        if !recording || buffer.format() != self.format {
            return Vec::new();
        }
        let pcm = buffer.to_pcm();
        self.writer.append_all(pcm.as_slice())
    }

    /// Finishes the session. The first call returns the sealed header, which
    /// the host writes over the header at the start of the file; every later
    /// call returns `None` and changes nothing.
    pub fn finish(&mut self) -> (sealed: Option<Vec<u8>>)
        ensures
            final(self)@ == old(self)@.finish(),
            final(self)@.wf(),
            sealed is Some <==> old(self)@.container.open,
            sealed matches Some(header) ==> header@ == old(self)@.container.sealed(),
    {
        self.writer.finalize()
    }
}

/// A failure in any step of the setup ends the session with an error, and the
/// file is removed if and only if it had been created; a success never does.
pub proof fn lemma_failed_setup_aborts(step: SetupStep)
    ensures
        spec_after_setup_step(step, false) is Abort,
        spec_after_setup_step(step, false)->remove_file == (step != SetupStep::CreateFile),
        !(spec_after_setup_step(step, true) is Abort),
{
}

/// Buffers and finishing keep a session well formed.
pub proof fn lemma_session_stays_wf(session: SessionView, recording: bool, buffer: RawBuffer)
    requires
        session.wf(),
    ensures
        session.capture(recording, buffer).wf(),
        session.finish().wf(),
{
    lemma_transitions_keep_wf(session.container, buffer.pcm(), 0);
}

/// Once the stop signal is set, a buffer changes nothing and nothing is
/// written for it.
pub proof fn lemma_capture_after_stop(session: SessionView, buffer: RawBuffer)
    ensures
        session.capture(false, buffer) == session,
        session.captured_bytes(false, buffer) == Seq::<u8>::empty(),
{
}

/// A finished session takes no more samples: a buffer changes nothing and
/// nothing is written for it, and finishing again changes nothing.
pub proof fn lemma_capture_after_finish(session: SessionView, recording: bool, buffer: RawBuffer)
    ensures
        session.finish().capture(recording, buffer) == session.finish(),
        session.finish().captured_bytes(recording, buffer) == Seq::<u8>::empty(),
        session.finish().finish() == session.finish(),
{
    lemma_finalize_is_final(session.container, 0, buffer.pcm());
}

/// The file of a finished session is consistent, whatever was recorded: it
/// is the sealed header followed by two bytes for each sample recorded; it
/// states the size of its data and of the whole as they are; and it states
/// the channel count and the sample rate of the stream, sixteen bits and
/// integer PCM. A session that is finished before any buffer arrived is no
/// exception: its file is the sealed header alone and states that it holds
/// no data.
pub proof fn lemma_finished_file_is_consistent(session: SessionView)
    requires
        session.wf(),
    ensures
        ({
            let file = session.finish().container.image();
            let header_len = session.container.spec.header_len();
            &&& file.len() == header_len + 2 * session.container.samples.len()
            &&& file.subrange(header_len as int, file.len() as int) == encode_samples(
                session.container.samples,
            )
            &&& declared_samples(file, header_len) == session.container.samples.len()
            &&& declared_data_bytes(file, header_len) == 2 * session.container.samples.len()
            &&& declared_data_bytes(file, header_len) == file.len() - header_len
            &&& declared_riff_bytes(file) == file.len() - 8
            &&& declared_channels(file) == session.config().channels
            &&& declared_sample_rate(file) == session.config().sample_rate
            &&& declared_bits(file) == BITS_PER_SAMPLE
            &&& declares_integer_pcm(file)
        }),
{
    lemma_finalized_image_is_consistent(session.finish().container);
}

} // verus!
