//! Verified logic of the Super Shuckie emulator frontend: replay packets,
//! input encoding, frame pacing, the replay-driven core state and the
//! frontend's rules.

pub mod packet;
pub mod input;
pub mod emulator;
pub mod counters;
pub mod core_state;
pub mod clock;
pub mod frontend;
pub mod controls;
pub mod parse;
pub mod file_names;
pub mod webserver;
pub mod core_thread;
pub mod text;
