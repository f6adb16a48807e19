//! Shell-environment activation for an installed command-line tool.
//!
//! The library renders a small shell script that puts the tool's binary
//! directory on `PATH`, and ensures that the user's shell startup files
//! source that script, inserting the dot-source line at most once.
//!
//! All decisions are made here, over plain values: a file is modelled as
//! `Option<String>` (absent, or its full text). Reading and writing real
//! files is left to an unverified shell around this crate, which feeds file
//! contents in and carries planned writes out.

pub mod activate;
pub mod appender;
pub mod home;
pub mod render;
pub mod text;
