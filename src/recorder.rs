//! The recorder state machine and the decisions of the post-processing
//! coordinator. The caller holds the recorder under its lock, performs the
//! command that each transition returns and publishes the notification.
use crate::gate::{above_threshold, should_dispatch};
use crate::session::RecordingSession;
use crate::state::{AudioConfig, RecorderState};
use crate::wav::{create_wav_memory, data_size_of, encode_error, wav_bytes, WavError};
use vstd::prelude::*;

verus! {

/// The global hotkeys the recorder listens to.
#[derive(Clone, Copy, Debug, PartialEq, Eq, Structural)]
pub enum Shortcut {
    /// Records, then hands the audio to the chat window for a response.
    Dictation,
    /// Shows or hides the chat window; records nothing.
    Assistant,
    /// Records, then pastes the transcript through the clipboard.
    Clipboard,
}

/// Whether a hotkey went down or came up.
#[derive(Clone, Copy, Debug, PartialEq, Eq, Structural)]
pub enum KeyPhase {
    Pressed,
    Released,
}

/// Where a finished capture is delivered.
#[derive(Clone, Copy, Debug, PartialEq, Eq, Structural)]
pub enum DispatchMode {
    /// Transcribe, ask for a response and show it in the chat window.
    Chat,
    /// Transcribe and paste the raw transcript.
    ClipboardPaste,
}

/// Why the input device could not be used for a capture.
#[derive(Clone, Copy, Debug, PartialEq, Eq, Structural)]
pub enum CaptureError {
    NoInputDevice,
    ConfigUnavailable,
    UnsupportedFormat,
    StreamBuildFailed,
    StreamStartFailed,
}

/// A failure reported to the user interface.
#[derive(Clone, Copy, Debug, PartialEq, Eq, Structural)]
pub enum ProcessingError {
    Device(CaptureError),
    Encoding(WavError),
}

/// What the caller must do after a transition.
#[derive(Debug)]
pub enum Command {
    Nothing,
    /// Show the chat window if hidden, hide it otherwise.
    ToggleWindow,
    /// Open the input device and, if `should_start_capture` still holds, raise
    /// the recording flag and start the capture.
    AcquireDevice,
    /// Lower the recording flag so the capture winds down.
    StopCapture,
    ReportError(ProcessingError),
    /// Play the cue telling the user the capture was too short.
    PlayDiscardCue,
    /// Hand the container to the collaborators selected by `mode`, then call
    /// `complete`.
    Dispatch { container: Vec<u8>, mode: DispatchMode },
}

/// The outcome of a transition: the state to announce, if it changed, and the
/// command to perform.
#[derive(Debug)]
pub struct Reaction {
    pub notify: Option<RecorderState>,
    pub command: Command,
}

/// An input of the state machine.
pub enum Event {
    Key(Shortcut, KeyPhase),
    DeviceFailed,
    /// The coordinator drained a capture of `samples` samples in format `config`.
    Finished { samples: nat, config: AudioConfig },
    /// Dispatch of the capture ended, successfully or not.
    Completed,
}

/// The dispatch action a shortcut selects; `None` for one that records nothing.
pub open spec fn route(shortcut: Shortcut) -> Option<DispatchMode> {
    match shortcut {
        Shortcut::Dictation => Some(DispatchMode::Chat),
        Shortcut::Clipboard => Some(DispatchMode::ClipboardPaste),
        Shortcut::Assistant => None,
    }
}

/// The dispatch router: picks the outbound action for a capture by the
/// shortcut that started it.
pub fn dispatch_mode(shortcut: Shortcut) -> (r: Option<DispatchMode>)
    ensures
        r == route(shortcut),
{
    match shortcut {
        Shortcut::Dictation => Some(DispatchMode::Chat),
        Shortcut::Clipboard => Some(DispatchMode::ClipboardPaste),
        Shortcut::Assistant => None,
    }
}

/// Whether a capture of `samples` samples in format `config` is encoded and
/// dispatched: it holds samples, fits a container and lasts longer than the
/// threshold.
#[verifier::opaque]
pub open spec fn dispatchable(samples: nat, config: AudioConfig) -> bool {
    &&& samples > 0
    &&& encode_error(samples as int, config.channels, config.sample_rate) is None
    &&& above_threshold(
        data_size_of(samples as int),
        config.sample_rate as int,
        config.channels as int,
    )
}

/// The recorder state after `event` in state `s`.
pub open spec fn next_state(s: RecorderState, event: Event) -> RecorderState {
    match event {
        Event::Key(shortcut, KeyPhase::Pressed) => {
            if s == RecorderState::Idle && route(shortcut) is Some {
                RecorderState::Recording
            } else {
                s
            }
        },
        Event::Key(_, KeyPhase::Released) => s,
        Event::DeviceFailed => {
            if s == RecorderState::Recording {
                RecorderState::Idle
            } else {
                s
            }
        },
        Event::Finished { samples, config } => {
            if s == RecorderState::Recording {
                if dispatchable(samples, config) {
                    RecorderState::Transcribing
                } else {
                    RecorderState::Idle
                }
            } else {
                s
            }
        },
        Event::Completed => {
            if s == RecorderState::Transcribing {
                RecorderState::Idle
            } else {
                s
            }
        },
    }
}

/// The state after the first `i` of `events`, starting from `s0`.
pub open spec fn state_at(s0: RecorderState, events: Seq<Event>, i: nat) -> RecorderState
    decreases i,
{
    if i == 0 {
        s0
    } else {
        next_state(state_at(s0, events, (i - 1) as nat), events[i - 1])
    }
}

/// Recording is entered only from Idle by pressing a recording shortcut, and
/// Transcribing only from Recording by finishing a dispatchable capture.
pub open spec fn entry_guarded(before: RecorderState, event: Event, after: RecorderState) -> bool {
    &&& (after == RecorderState::Recording && before != RecorderState::Recording) ==> {
        &&& before == RecorderState::Idle
        &&& event matches Event::Key(shortcut, KeyPhase::Pressed)
        &&& route(shortcut) is Some
    }
    &&& (after == RecorderState::Transcribing && before != RecorderState::Transcribing) ==> {
        &&& before == RecorderState::Recording
        &&& event matches Event::Finished { samples, config }
        &&& dispatchable(samples, config)
    }
}

/// For every sequence of events and every start state, each transition of the
/// machine enters Recording only from Idle on a press of a recording shortcut,
/// and enters Transcribing only from Recording when a capture above the
/// duration threshold finishes.
pub proof fn lemma_transitions_guarded(s0: RecorderState, events: Seq<Event>)
    ensures
        forall|i: nat|
            i < events.len() ==> entry_guarded(
                #[trigger] state_at(s0, events, i),
                events[i as int],
                state_at(s0, events, i + 1),
            ),
{
    assert forall|i: nat| i < events.len() implies entry_guarded(
        #[trigger] state_at(s0, events, i),
        events[i as int],
        state_at(s0, events, i + 1),
    ) by {
        assert(state_at(s0, events, i + 1) == next_state(state_at(s0, events, i), events[i as int]));
    }
}

/// What the recorder remembers.
pub struct RecorderModel {
    pub state: RecorderState,
    /// Dispatch action of the current capture, chosen when it started.
    pub mode: DispatchMode,
    /// The recording shortcut was released during the current capture.
    pub stop_requested: bool,
}

/// The recorder: the single authoritative state, and the dispatch action of
/// the capture in progress.
pub struct Recorder {
    state: RecorderState,
    mode: DispatchMode,
    stop_requested: bool,
}

impl View for Recorder {
    type V = RecorderModel;

    closed spec fn view(&self) -> RecorderModel {
        RecorderModel { state: self.state, mode: self.mode, stop_requested: self.stop_requested }
    }
}

pub open spec fn ignored() -> Reaction {
    Reaction { notify: None, command: Command::Nothing }
}

/// The model and reaction after a hotkey event.
pub open spec fn key_outcome(m: RecorderModel, shortcut: Shortcut, phase: KeyPhase) -> (
    RecorderModel,
    Reaction,
) {
    match (route(shortcut), phase) {
        (Some(mode), KeyPhase::Pressed) => {
            if m.state == RecorderState::Idle {
                (
                    RecorderModel {
                        state: RecorderState::Recording,
                        mode: mode,
                        stop_requested: false,
                    },
                    Reaction {
                        notify: Some(RecorderState::Recording),
                        command: Command::AcquireDevice,
                    },
                )
            } else {
                (m, ignored())
            }
        },
        (None, KeyPhase::Pressed) => (
            m,
            Reaction { notify: None, command: Command::ToggleWindow },
        ),
        (Some(_), KeyPhase::Released) => {
            if m.state == RecorderState::Recording {
                (
                    RecorderModel { stop_requested: true, ..m },
                    Reaction { notify: None, command: Command::StopCapture },
                )
            } else {
                (m, ignored())
            }
        },
        (None, KeyPhase::Released) => (m, ignored()),
    }
}

/// Releasing a key while Idle is a no-op, however often it is repeated: the
/// model stays as it was and nothing is announced.
pub proof fn lemma_release_when_idle_is_noop(m: RecorderModel, shortcut: Shortcut)
    requires
        m.state == RecorderState::Idle,
    ensures
        key_outcome(m, shortcut, KeyPhase::Released) == (m, ignored()),
        key_outcome(key_outcome(m, shortcut, KeyPhase::Released).0, shortcut, KeyPhase::Released)
            == (m, ignored()),
{
}

impl Recorder {
    /// A recorder in the Idle state.
    pub fn new() -> (r: Recorder)
        ensures
            r@.state == RecorderState::Idle,
            !r@.stop_requested,
    {
        Recorder { state: RecorderState::Idle, mode: DispatchMode::Chat, stop_requested: false }
    }

    /// The current state.
    pub fn state(&self) -> (r: RecorderState)
        ensures
            r == self@.state,
    {
        self.state
    }

    /// Dispatch action of the current capture.
    pub fn mode(&self) -> (r: DispatchMode)
        ensures
            r == self@.mode,
    {
        self.mode
    }

    /// Handles a hotkey. A press of a recording shortcut starts a capture only
    /// from Idle and is ignored otherwise; its release while Recording asks the
    /// capture to stop, and is a no-op in any other state. The assistant
    /// shortcut toggles the window and never touches the state.
    pub fn key(&mut self, shortcut: Shortcut, phase: KeyPhase) -> (r: Reaction)
        ensures
            (final(self)@, r) == key_outcome(old(self)@, shortcut, phase),
            final(self)@.state == next_state(old(self)@.state, Event::Key(shortcut, phase)),
    {
        match (dispatch_mode(shortcut), phase) {
            (Some(mode), KeyPhase::Pressed) => {
                match self.state {
                    RecorderState::Idle => {
                        self.state = RecorderState::Recording;
                        self.mode = mode;
                        self.stop_requested = false;
                        Reaction {
                            notify: Some(RecorderState::Recording),
                            command: Command::AcquireDevice,
                        }
                    },
                    _ => Reaction { notify: None, command: Command::Nothing },
                }
            },
            (None, KeyPhase::Pressed) => Reaction { notify: None, command: Command::ToggleWindow },
            (Some(_), KeyPhase::Released) => {
                match self.state {
                    RecorderState::Recording => {
                        self.stop_requested = true;
                        Reaction { notify: None, command: Command::StopCapture }
                    },
                    _ => Reaction { notify: None, command: Command::Nothing },
                }
            },
            (None, KeyPhase::Released) => Reaction { notify: None, command: Command::Nothing },
        }
    }

    /// Whether the device just acquired may start streaming: the capture is
    /// still in progress and its key has not been released meanwhile.
    pub fn should_start_capture(&self) -> (r: bool)
        ensures
            r == (self@.state == RecorderState::Recording && !self@.stop_requested),
    {
        match self.state {
            RecorderState::Recording => !self.stop_requested,
            _ => false,
        }
    }

    /// The input device could not be opened or started: a capture in progress
    /// ends and returns to Idle, and the error is reported.
    pub fn device_failed(&mut self, error: CaptureError) -> (r: Reaction)
        ensures
            final(self)@.state == next_state(old(self)@.state, Event::DeviceFailed),
            old(self)@.state == RecorderState::Recording ==> r == (Reaction {
                notify: Some(RecorderState::Idle),
                command: Command::ReportError(ProcessingError::Device(error)),
            }) && final(self)@ == (RecorderModel { state: RecorderState::Idle, ..old(self)@ }),
            old(self)@.state != RecorderState::Recording ==> r == ignored() && final(self)@ == old(
                self,
            )@,
    {
        match self.state {
            RecorderState::Recording => {
                self.state = RecorderState::Idle;
                Reaction {
                    notify: Some(RecorderState::Idle),
                    command: Command::ReportError(ProcessingError::Device(error)),
                }
            },
            _ => Reaction { notify: None, command: Command::Nothing },
        }
    }

    /// The coordinator's decision once the recording flag is down and the
    /// channel drained. An empty capture returns to Idle with nothing built. A
    /// capture that cannot be encoded returns to Idle and is reported. One of
    /// at most the threshold returns to Idle with the discard cue. A longer one
    /// moves to Transcribing and is dispatched as a container. Outside
    /// Recording nothing happens.
    pub fn finish(&mut self, session: &RecordingSession) -> (r: Reaction)
        ensures
            final(self)@.state == next_state(
                old(self)@.state,
                Event::Finished { samples: session.samples().len(), config: session.config },
            ),
            final(self)@.mode == old(self)@.mode,
            final(self)@.stop_requested == old(self)@.stop_requested,
            old(self)@.state != RecorderState::Recording ==> r == ignored() && final(self)@ == old(
                self,
            )@,
            old(self)@.state == RecorderState::Recording ==> ({
                let n = session.samples().len();
                let c = session.config;
                if n == 0 {
                    r == (Reaction { notify: Some(RecorderState::Idle), command: Command::Nothing })
                } else if encode_error(n as int, c.channels, c.sample_rate) is Some {
                    r == (Reaction {
                        notify: Some(RecorderState::Idle),
                        command: Command::ReportError(
                            ProcessingError::Encoding(
                                encode_error(n as int, c.channels, c.sample_rate)->0,
                            ),
                        ),
                    })
                } else if dispatchable(n, c) {
                    &&& r.notify == Some(RecorderState::Transcribing)
                    &&& r.command matches Command::Dispatch { container, mode }
                    &&& container@ == wav_bytes(session.samples(), c.channels, c.sample_rate)
                    &&& mode == old(self)@.mode
                } else {
                    r == (Reaction {
                        notify: Some(RecorderState::Idle),
                        command: Command::PlayDiscardCue,
                    })
                }
            }),
    {
        match self.state {
            RecorderState::Recording => {},
            _ => {
                return Reaction { notify: None, command: Command::Nothing };
            },
        }
        let c = session.config;
        proof {
            reveal(dispatchable);
        }
        if session.is_empty() {
            self.state = RecorderState::Idle;
            return Reaction { notify: Some(RecorderState::Idle), command: Command::Nothing };
        }
        match create_wav_memory(session.pcm(), c.channels, c.sample_rate) {
            Err(e) => {
                self.state = RecorderState::Idle;
                Reaction {
                    notify: Some(RecorderState::Idle),
                    command: Command::ReportError(ProcessingError::Encoding(e)),
                }
            },
            Ok(container) => {
                let data_size: u32 = (session.len() * 2) as u32;
                if should_dispatch(data_size, c.sample_rate, c.channels) {
                    self.state = RecorderState::Transcribing;
                    Reaction {
                        notify: Some(RecorderState::Transcribing),
                        command: Command::Dispatch { container, mode: self.mode },
                    }
                } else {
                    self.state = RecorderState::Idle;
                    Reaction { notify: Some(RecorderState::Idle), command: Command::PlayDiscardCue }
                }
            },
        }
    }

    /// Dispatch has ended, successfully or not: Transcribing returns to Idle.
    pub fn complete(&mut self) -> (r: Reaction)
        ensures
            final(self)@.state == next_state(old(self)@.state, Event::Completed),
            old(self)@.state == RecorderState::Transcribing ==> r == (Reaction {
                notify: Some(RecorderState::Idle),
                command: Command::Nothing,
            }) && final(self)@ == (RecorderModel { state: RecorderState::Idle, ..old(self)@ }),
            old(self)@.state != RecorderState::Transcribing ==> r == ignored() && final(self)@
                == old(self)@,
    {
        match self.state {
            RecorderState::Transcribing => {
                self.state = RecorderState::Idle;
                Reaction { notify: Some(RecorderState::Idle), command: Command::Nothing }
            },
            _ => Reaction { notify: None, command: Command::Nothing },
        }
    }
}

} // verus!
