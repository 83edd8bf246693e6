//! Push-to-talk voice capture core: sample canonicalization, chunked hand-off
//! of captured audio, the WAV container encoder, the duration gate and the
//! recorder state machine that the hotkey handlers and the post-processing
//! coordinator drive.

pub mod state;
pub mod wav;
pub mod sample;
pub mod capture;
pub mod gate;
pub mod session;
pub mod recorder;
