//! The recording controller: the state that start, stop and status share.
//!
//! The controller performs no I/O and holds no lock. Its host keeps one
//! `RecordingState` under mutual exclusion and calls one method for each
//! critical section; a method checks and sets in one step, so two starts
//! cannot both find the controller idle.

use crate::session::SetupError;
use vstd::prelude::*;

verus! {

/// Milliseconds that the host waits after a stop before it reports the path,
/// to give the session time to seal the file. This is a delay, not a
/// guarantee: the file may still be unsealed when it ends.
pub const STOP_SETTLE_MS: u64 = 100;

/// The name of the file that a recording goes to, inside the output
/// directory. Every recording replaces the one before.
pub const RECORDING_FILE_NAME: &'static str = "recording.wav";

/// Why the output directory could not be had.
#[derive(Clone, Copy, Debug, PartialEq, Eq, Structural)]
pub enum PathFailure {
    /// The directory could not be determined.
    Undetermined,
    /// The directory could not be created.
    NotCreated,
}

/// Why the work between claiming the controller and recording failed.
#[derive(Clone, Copy, Debug, PartialEq, Eq, Structural)]
pub enum StartFailure {
    Path(PathFailure),
    Device(SetupError),
}

/// Why a start or a stop was refused.
#[derive(Clone, Copy, Debug, PartialEq, Eq, Structural)]
pub enum RecordingError {
    AlreadyRecording,
    PathResolutionError(PathFailure),
    DeviceError(SetupError),
    NotRecording,
    NoOutputPath,
}

impl RecordingError {
    /// The error in words.
    pub open spec fn spec_message(self) -> Seq<char> {
        match self {
            RecordingError::AlreadyRecording => "Already recording"@,
            RecordingError::PathResolutionError(PathFailure::Undetermined) =>
                "Failed to get app data directory"@,
            RecordingError::PathResolutionError(PathFailure::NotCreated) =>
                "Failed to create app data directory"@,
            RecordingError::DeviceError(error) => error.spec_message(),
            RecordingError::NotRecording => "Not recording"@,
            RecordingError::NoOutputPath => "No recording path found"@,
        }
    }

    /// The error in words.
    pub fn message(&self) -> (message: String)
        ensures
            message@ == self.spec_message(),
    {
        match self {
            RecordingError::AlreadyRecording => "Already recording".to_owned(),
            RecordingError::PathResolutionError(PathFailure::Undetermined) =>
                "Failed to get app data directory".to_owned(),
            RecordingError::PathResolutionError(PathFailure::NotCreated) =>
                "Failed to create app data directory".to_owned(),
            RecordingError::DeviceError(error) => error.message(),
            RecordingError::NotRecording => "Not recording".to_owned(),
            RecordingError::NoOutputPath => "No recording path found".to_owned(),
        }
    }
}

impl StartFailure {
    /// The error that a start reports for this failure.
    pub open spec fn spec_to_error(self) -> RecordingError {
        match self {
            StartFailure::Path(failure) => RecordingError::PathResolutionError(failure),
            StartFailure::Device(error) => RecordingError::DeviceError(error),
        }
    }

    /// The error that a start reports for this failure.
    pub fn to_error(self) -> (error: RecordingError)
        ensures
            error == self.spec_to_error(),
    {
        match self {
            StartFailure::Path(failure) => RecordingError::PathResolutionError(failure),
            StartFailure::Device(error) => RecordingError::DeviceError(error),
        }
    }
}

/// The mathematical state of the controller.
pub struct RecordingModel {
    /// `true` from a claim until the stop, or until the start fails.
    pub active: bool,
    /// The path of the last recording that was started, if there was one.
    pub output_path: Option<Seq<char>>,
}

impl RecordingModel {
    /// The controller before any recording.
    pub open spec fn idle() -> RecordingModel {
        RecordingModel { active: false, output_path: None }
    }

    /// The first half of a start: the claim.
    pub open spec fn begin(self) -> (RecordingModel, Result<(), RecordingError>) {
        if self.active {
            (self, Err(RecordingError::AlreadyRecording))
        } else {
            (RecordingModel { active: true, ..self }, Ok(()))
        }
    }

    /// The second half of a start: a path is recorded and reported, a failure
    /// gives the claim up.
    pub open spec fn complete(self, outcome: Result<Seq<char>, StartFailure>) -> (
        RecordingModel,
        Result<Seq<char>, RecordingError>,
    ) {
        match outcome {
            Ok(path) => (RecordingModel { output_path: Some(path), ..self }, Ok(path)),
            Err(failure) => (RecordingModel { active: false, ..self }, Err(
                failure.spec_to_error(),
            )),
        }
    }

    /// A whole start: the claim, then, where the claim was granted, the
    /// outcome of the host's work.
    pub open spec fn start(self, outcome: Result<Seq<char>, StartFailure>) -> (
        RecordingModel,
        Result<Seq<char>, RecordingError>,
    ) {
        match self.begin().1 {
            Ok(_) => self.begin().0.complete(outcome),
            Err(error) => (self, Err(error)),
        }
    }

    /// A stop.
    pub open spec fn stop(self) -> (RecordingModel, Result<Seq<char>, RecordingError>) {
        if !self.active {
            (self, Err(RecordingError::NotRecording))
        } else {
            (
                RecordingModel { active: false, ..self },
                match self.output_path {
                    Some(path) => Ok(path),
                    None => Err(RecordingError::NoOutputPath),
                },
            )
        }
    }
}

/// A path result as the model has it.
pub open spec fn path_result(result: Result<String, RecordingError>) -> Result<
    Seq<char>,
    RecordingError,
> {
    match result {
        Ok(path) => Ok(path@),
        Err(error) => Err(error),
    }
}

/// The outcome of the host's work as the model has it.
pub open spec fn outcome_view(outcome: Result<String, StartFailure>) -> Result<
    Seq<char>,
    StartFailure,
> {
    match outcome {
        Ok(path) => Ok(path@),
        Err(failure) => Err(failure),
    }
}

/// How long the host waits between a stop and its report: the settle time
/// where the stop took the controller from active to idle, no time where it
/// was refused because no recording was going on.
pub open spec fn spec_settle_after_stop(stopped: Result<Seq<char>, RecordingError>) -> Option<u64> {
    match stopped {
        Err(RecordingError::NotRecording) => None,
        _ => Some(STOP_SETTLE_MS),
    }
}

/// Decides how long the host waits between a stop and its report.
pub fn settle_after_stop(stopped: &Result<String, RecordingError>) -> (millis: Option<u64>)
    ensures
        millis == spec_settle_after_stop(path_result(*stopped)),
{
    match stopped {
        Err(RecordingError::NotRecording) => None,
        _ => Some(STOP_SETTLE_MS),
    }
}

/// What start, stop and status share: whether a recording is going on, and
/// where the last one went.
pub struct RecordingState {
    pub active: bool,
    pub output_path: Option<String>,
}

impl View for RecordingState {
    type V = RecordingModel;

    open spec fn view(&self) -> RecordingModel {
        RecordingModel {
            active: self.active,
            output_path: match self.output_path {
                Some(path) => Some(path@),
                None => None,
            },
        }
    }
}

impl Default for RecordingState {
    fn default() -> (state: RecordingState)
        ensures
            state@ == RecordingModel::idle(),
    {
        RecordingState { active: false, output_path: None }
    }
}

impl RecordingState {
    /// A controller that is idle and has no path.
    pub fn new() -> (state: RecordingState)
        ensures
            state@ == RecordingModel::idle(),
    {
        RecordingState { active: false, output_path: None }
    }

    /// Whether a recording is going on.
    pub fn is_recording(&self) -> (active: bool)
        ensures
            active == self@.active,
    {
        self.active
    }

    /// Claims the controller for a new recording: checks that it is idle and
    /// marks it active, in one step. Refused with `AlreadyRecording`, and
    /// without any change, when it is active already.
    pub fn begin_recording(&mut self) -> (claimed: Result<(), RecordingError>)
        ensures
            final(self)@ == old(self)@.begin().0,
            claimed == old(self)@.begin().1,
    {
        if self.active {
            return Err(RecordingError::AlreadyRecording);
        }
        self.active = true;
        Ok(())
    }

    /// Ends a start that was claimed with the outcome of the host's work:
    /// the path of the recording, which is recorded and reported, or the
    /// failure, which puts the controller back to idle.
    pub fn complete_start(&mut self, outcome: Result<String, StartFailure>) -> (started: Result<
        String,
        RecordingError,
    >)
        ensures
            final(self)@ == old(self)@.complete(outcome_view(outcome)).0,
            path_result(started) == old(self)@.complete(outcome_view(outcome)).1,
    {
        match outcome {
            Ok(path) => {
                self.output_path = Some(path.clone());
                Ok(path)
            },
            Err(failure) => {
                self.active = false;
                Err(failure.to_error())
            },
        }
    }

    /// A whole start, for a host that has the outcome of its work in hand:
    /// the claim and, where it is granted, the completion. Refused with
    /// `AlreadyRecording`, and without any change, when the controller is
    /// active; the outcome then plays no part.
    pub fn start_recording(&mut self, outcome: Result<String, StartFailure>) -> (started: Result<
        String,
        RecordingError,
    >)
        ensures
            final(self)@ == old(self)@.start(outcome_view(outcome)).0,
            path_result(started) == old(self)@.start(outcome_view(outcome)).1,
    {
        match self.begin_recording() {
            Ok(_) => self.complete_start(outcome),
            Err(error) => Err(error),
        }
    }

    /// Stops the recording: marks the controller idle at once and reports
    /// the path of the recording. Refused with `NotRecording`, and without
    /// any change, when no recording is going on. Where the controller is
    /// active but has no path, it goes idle and reports `NoOutputPath`.
    ///
    /// The session seals the file only after it has seen the stop: when this
    /// returns, the file may not be sealed yet.
    pub fn stop_recording(&mut self) -> (stopped: Result<String, RecordingError>)
        ensures
            final(self)@ == old(self)@.stop().0,
            path_result(stopped) == old(self)@.stop().1,
    {
        if !self.active {
            return Err(RecordingError::NotRecording);
        }
        self.active = false;
        match &self.output_path {
            Some(path) => Ok(path.clone()),
            None => Err(RecordingError::NoOutputPath),
        }
    }
}

/// Of two starts with no stop between them, only the first is granted: an
/// idle controller grants the claim, and from then on, while the start is
/// under way and after it has succeeded, every further start is refused with
/// `AlreadyRecording` and changes nothing.
pub proof fn lemma_no_double_start(
    state: RecordingModel,
    path: Seq<char>,
    second: Result<Seq<char>, StartFailure>,
)
    requires
        !state.active,
    ensures
        state.begin().1 == Ok::<(), RecordingError>(()),
        state.begin().0.begin() == (state.begin().0, Err::<(), RecordingError>(
            RecordingError::AlreadyRecording,
        )),
        state.begin().0.start(second) == (state.begin().0, Err::<Seq<char>, RecordingError>(
            RecordingError::AlreadyRecording,
        )),
        state.start(Ok(path)).1 == Ok::<Seq<char>, RecordingError>(path),
        state.start(Ok(path)).0.active,
        state.start(Ok(path)).0.start(second) == (state.start(Ok(path)).0, Err::<
            Seq<char>,
            RecordingError,
        >(RecordingError::AlreadyRecording)),
{
}

/// The number of claims that are granted when `count` claims follow one
/// another with nothing between them.
pub open spec fn claims_granted(state: RecordingModel, count: nat) -> nat
    decreases count,
{
    if count == 0 {
        0
    } else {
        (if state.begin().1 is Ok {
            1nat
        } else {
            0nat
        }) + claims_granted(state.begin().0, (count - 1) as nat)
    }
}

/// However many starts arrive at an idle controller, and in whatever order
/// the lock lets them in, exactly one claim is granted, and the controller
/// is active afterwards. At an active controller none is granted.
pub proof fn lemma_one_claim_is_granted(state: RecordingModel, count: nat)
    requires
        count >= 1,
    ensures
        claims_granted(state, count) == (if state.active {
            0nat
        } else {
            1nat
        }),
    decreases count,
{
    if count > 1 {
        lemma_one_claim_is_granted(state.begin().0, (count - 1) as nat);
    } else {
        assert(claims_granted(state.begin().0, 0) == 0);
    }
}

/// A stop while no recording is going on, before any start among others, is
/// refused with `NotRecording` and changes nothing.
pub proof fn lemma_stop_when_idle(state: RecordingModel)
    requires
        !state.active,
    ensures
        state.stop() == (state, Err::<Seq<char>, RecordingError>(RecordingError::NotRecording)),
        RecordingModel::idle().stop() == (RecordingModel::idle(), Err::<Seq<char>, RecordingError>(
            RecordingError::NotRecording,
        )),
{
}

/// A start that fails in the host's work reports the failure and leaves the
/// controller as it was: idle, with the path it had.
pub proof fn lemma_failed_start_leaves_idle(state: RecordingModel, failure: StartFailure)
    requires
        !state.active,
    ensures
        state.start(Err(failure)) == (state, Err::<Seq<char>, RecordingError>(
            failure.spec_to_error(),
        )),
        !state.start(Err(failure)).0.active,
{
}

/// A start followed by a stop reports the same path twice and leaves the
/// controller idle, so that the next start is granted again.
pub proof fn lemma_start_stop_cycle(state: RecordingModel, path: Seq<char>)
    requires
        !state.active,
    ensures
        state.start(Ok(path)).0.stop().1 == Ok::<Seq<char>, RecordingError>(path),
        state.start(Ok(path)).0.stop().0 == (RecordingModel {
            active: false,
            output_path: Some(path),
        }),
        state.start(Ok(path)).0.stop().0.begin().1 == Ok::<(), RecordingError>(()),
{
}

} // verus!
