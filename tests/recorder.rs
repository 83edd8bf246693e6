use murmur::capture::split_chunks;
use murmur::gate::duration_millis;
use murmur::recorder::{
    dispatch_mode, CaptureError, Command, DispatchMode, KeyPhase, ProcessingError, Recorder,
    Shortcut,
};
use murmur::session::RecordingSession;
use murmur::state::{AudioConfig, RecorderState};
use murmur::wav::{parse_wav_header, WavError};

fn mono_44k() -> AudioConfig {
    AudioConfig { sample_rate: 44100, channels: 1 }
}

fn session_of(config: AudioConfig, samples: usize) -> RecordingSession {
    let data: Vec<i16> = (0..samples).map(|i| (i % 200) as i16 - 100).collect();
    let mut session = RecordingSession::new(config);
    for chunk in split_chunks(&data) {
        session.append_chunk(&chunk);
    }
    session
}

#[test]
fn default_audio_config() {
    let c = AudioConfig::new();
    assert_eq!(c.sample_rate, 44100);
    assert_eq!(c.channels, 1);
}

#[test]
fn router_selects_action_by_shortcut() {
    assert_eq!(dispatch_mode(Shortcut::Dictation), Some(DispatchMode::Chat));
    assert_eq!(dispatch_mode(Shortcut::Clipboard), Some(DispatchMode::ClipboardPaste));
    assert_eq!(dispatch_mode(Shortcut::Assistant), None);
}

#[test]
fn long_capture_is_dispatched_then_idle() {
    let mut rec = Recorder::new();
    let r = rec.key(Shortcut::Dictation, KeyPhase::Pressed);
    assert_eq!(r.notify, Some(RecorderState::Recording));
    assert!(matches!(r.command, Command::AcquireDevice));
    assert!(rec.should_start_capture());

    let session = session_of(mono_44k(), 110250);
    assert_eq!(session.len(), 110250);

    let r = rec.key(Shortcut::Dictation, KeyPhase::Released);
    assert_eq!(r.notify, None);
    assert!(matches!(r.command, Command::StopCapture));
    assert_eq!(rec.state(), RecorderState::Recording);

    let r = rec.finish(&session);
    assert_eq!(r.notify, Some(RecorderState::Transcribing));
    assert_eq!(rec.state(), RecorderState::Transcribing);
    match r.command {
        Command::Dispatch { container, mode } => {
            assert_eq!(mode, DispatchMode::Chat);
            let h = parse_wav_header(&container).unwrap();
            assert_eq!(h.data_size, 220500);
            assert_eq!(h.sample_rate, 44100);
            assert_eq!(h.channels, 1);
            assert_eq!(container.len(), 44 + 220500);
            assert_eq!(duration_millis(h.data_size, h.sample_rate, h.channels), 2500);
        }
        other => panic!("expected a dispatch, got {:?}", other),
    }

    let r = rec.complete();
    assert_eq!(r.notify, Some(RecorderState::Idle));
    assert_eq!(rec.state(), RecorderState::Idle);
}

#[test]
fn clipboard_capture_dispatches_in_paste_mode() {
    let mut rec = Recorder::new();
    rec.key(Shortcut::Clipboard, KeyPhase::Pressed);
    rec.key(Shortcut::Clipboard, KeyPhase::Released);
    let r = rec.finish(&session_of(AudioConfig { sample_rate: 16000, channels: 2 }, 40000));
    match r.command {
        Command::Dispatch { mode, .. } => assert_eq!(mode, DispatchMode::ClipboardPaste),
        other => panic!("expected a dispatch, got {:?}", other),
    }
}

#[test]
fn empty_capture_returns_to_idle_without_container() {
    let mut rec = Recorder::new();
    rec.key(Shortcut::Dictation, KeyPhase::Pressed);
    rec.key(Shortcut::Dictation, KeyPhase::Released);
    let r = rec.finish(&RecordingSession::new(mono_44k()));
    assert_eq!(r.notify, Some(RecorderState::Idle));
    assert!(matches!(r.command, Command::Nothing));
    assert_eq!(rec.state(), RecorderState::Idle);
}

#[test]
fn missing_device_reverts_to_idle_and_reports() {
    let mut rec = Recorder::new();
    let r = rec.key(Shortcut::Dictation, KeyPhase::Pressed);
    assert!(matches!(r.command, Command::AcquireDevice));
    let r = rec.device_failed(CaptureError::NoInputDevice);
    assert_eq!(r.notify, Some(RecorderState::Idle));
    assert!(matches!(
        r.command,
        Command::ReportError(ProcessingError::Device(CaptureError::NoInputDevice))
    ));
    assert_eq!(rec.state(), RecorderState::Idle);
    assert!(!rec.should_start_capture());
}

#[test]
fn release_while_idle_is_a_no_op() {
    let mut rec = Recorder::new();
    for _ in 0..2 {
        let r = rec.key(Shortcut::Dictation, KeyPhase::Released);
        assert_eq!(r.notify, None);
        assert!(matches!(r.command, Command::Nothing));
        assert_eq!(rec.state(), RecorderState::Idle);
    }
}

#[test]
fn press_while_busy_is_ignored() {
    let mut rec = Recorder::new();
    rec.key(Shortcut::Dictation, KeyPhase::Pressed);
    let r = rec.key(Shortcut::Clipboard, KeyPhase::Pressed);
    assert_eq!(r.notify, None);
    assert!(matches!(r.command, Command::Nothing));
    assert_eq!(rec.mode(), DispatchMode::Chat);
    rec.key(Shortcut::Dictation, KeyPhase::Released);
    rec.finish(&session_of(mono_44k(), 50000));
    assert_eq!(rec.state(), RecorderState::Transcribing);
    let r = rec.key(Shortcut::Dictation, KeyPhase::Pressed);
    assert_eq!(r.notify, None);
    assert_eq!(rec.state(), RecorderState::Transcribing);
}

#[test]
fn assistant_shortcut_only_toggles_window() {
    let mut rec = Recorder::new();
    let r = rec.key(Shortcut::Assistant, KeyPhase::Pressed);
    assert!(matches!(r.command, Command::ToggleWindow));
    assert_eq!(r.notify, None);
    assert_eq!(rec.state(), RecorderState::Idle);
    let r = rec.key(Shortcut::Assistant, KeyPhase::Released);
    assert!(matches!(r.command, Command::Nothing));
}

#[test]
fn capture_of_exactly_one_second_is_discarded() {
    let mut rec = Recorder::new();
    rec.key(Shortcut::Dictation, KeyPhase::Pressed);
    rec.key(Shortcut::Dictation, KeyPhase::Released);
    let r = rec.finish(&session_of(mono_44k(), 44100));
    assert_eq!(r.notify, Some(RecorderState::Idle));
    assert!(matches!(r.command, Command::PlayDiscardCue));
    assert_eq!(rec.state(), RecorderState::Idle);
}

#[test]
fn capture_just_over_one_second_is_dispatched() {
    let mut rec = Recorder::new();
    rec.key(Shortcut::Dictation, KeyPhase::Pressed);
    let r = rec.finish(&session_of(mono_44k(), 44101));
    assert_eq!(r.notify, Some(RecorderState::Transcribing));
}

#[test]
fn unencodable_capture_is_reported_and_reset() {
    let mut rec = Recorder::new();
    rec.key(Shortcut::Dictation, KeyPhase::Pressed);
    let r = rec.finish(&session_of(AudioConfig { sample_rate: 8000, channels: 40000 }, 10));
    assert_eq!(r.notify, Some(RecorderState::Idle));
    assert!(matches!(
        r.command,
        Command::ReportError(ProcessingError::Encoding(WavError::TooManyChannels))
    ));
}

#[test]
fn early_release_prevents_capture_start() {
    let mut rec = Recorder::new();
    rec.key(Shortcut::Dictation, KeyPhase::Pressed);
    rec.key(Shortcut::Dictation, KeyPhase::Released);
    assert!(!rec.should_start_capture());
    assert_eq!(rec.state(), RecorderState::Recording);
}

#[test]
fn finish_and_complete_outside_their_states_do_nothing() {
    let mut rec = Recorder::new();
    let r = rec.finish(&session_of(mono_44k(), 100000));
    assert_eq!(r.notify, None);
    assert!(matches!(r.command, Command::Nothing));
    let r = rec.complete();
    assert_eq!(r.notify, None);
    let r = rec.device_failed(CaptureError::StreamStartFailed);
    assert_eq!(r.notify, None);
    assert_eq!(rec.state(), RecorderState::Idle);
}

#[test]
fn session_appends_chunks_in_order() {
    let mut s = RecordingSession::new(mono_44k());
    assert!(s.is_empty());
    s.append_chunk(&[1, 2]);
    s.append_chunk(&[]);
    s.append_chunk(&[3]);
    assert_eq!(s.pcm(), &[1, 2, 3]);
    assert_eq!(s.len(), 3);
    assert_eq!(s.config, mono_44k());
}
