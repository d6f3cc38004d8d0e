//! Verified core of the NQRustBackup installer.
pub mod text;
pub mod model;
pub mod phases;
pub mod clock;
pub mod log;
pub mod preflight;
pub mod roundtrip;
pub mod roundtrip_run;
pub mod steps;
pub mod texts;
pub mod plans;
pub mod verify;
pub mod tui;
pub mod laws;
pub mod source;
