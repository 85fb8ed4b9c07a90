//! Macro recorder core: a recording buffer gated by mode flags, the capture
//! sink that feeds it, and a playback state machine that replays a recording
//! with its captured inter-event timing.
//!
//! The engine is generic over the key identity `K`, so the host decides which
//! key type the OS layer delivers; the engine only stores and hands keys back.

pub mod event;
pub mod engine;
pub mod playback;
pub mod hotkey;

pub use event::{EventKind, InputEvent, Synthesis, synthesis_for, delay_us};
pub use engine::{Engine, EngineView, check_keyboard_status};
pub use playback::{Playback, PlaybackStep, PlaybackView, SETTLE_DELAY_MS};
pub use hotkey::{Chords, Command, dispatch};
