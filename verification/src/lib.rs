//! ATEM IP Patchbay: what the program decides, as functions with proved contracts.
//!
//! A stream begins with an [`state::EncoderState`]. Settings change it
//! ([`settings`]), services add destinations to it ([`loading`]), and
//! [`plan`] makes a plan of it, from which [`command`] makes the command that FFmpeg is
//! run with. While FFmpeg runs, [`progress`] reads what it prints, and [`supervisor`]
//! decides what comes after it ends. [`protocol`] lets other devices watch and steer.
//!
//! The diagnosis tries a destination ([`probe`]), watches its packets ([`flows`]) and
//! shows both ([`dashboard`]).
//!
//! What holds of the whole, rather than of one function, stands in the modules whose names end
//! in `_laws`: what a plan tells a receiver, what a command asks FFmpeg for, where each setting
//! goes, and the like. [`reading`] holds what they read texts and arguments with.
//!
//! Each type has a view: texts are sequences of characters, times are whole numbers, and
//! a figure that is printed with a fraction is kept as a text or in whole parts.
pub mod addresses;
pub mod attempt;
pub mod audio_bridge;
pub mod avf_modes;
pub mod card_laws;
pub mod command;
pub mod dashboard;
pub mod decklink;
pub mod decklink_spike;
pub mod device_laws;
pub mod device_scanner;
pub mod diag_cli;
pub mod diag_config;
pub mod diag_laws;
pub mod discovery;
pub mod encoder;
pub mod encoder_laws;
pub mod feed_laws;
pub mod ffmpeg_path;
pub mod fleet;
pub mod flows;
pub mod frame_pack;
pub mod instance;
pub mod json;
pub mod loading;
pub mod mode_laws;
pub mod nesting;
pub mod number;
pub mod patterns;
pub mod plan;
pub mod plan_laws;
pub mod probe;
pub mod progress;
pub mod protocol;
pub mod protocol_laws;
pub mod rank;
pub mod raw_video;
pub mod reading;
pub mod resolve;
pub mod run_laws;
pub mod scan;
pub mod service_laws;
pub mod services;
pub mod shell;
pub mod snapshot;
pub mod settings;
pub mod settings_laws;
pub mod source_laws;
pub mod sources;
pub mod srt_handshake;
pub mod state;
pub mod state_persist;
pub mod streamid;
pub mod supervisor;
pub mod system_monitor;
pub mod text;
pub mod text_laws;
pub mod timestamps;
pub mod unifi;
pub mod watch_laws;
pub mod xml;
