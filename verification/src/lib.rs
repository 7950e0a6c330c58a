//! Compilation driver and front-end skeleton for a small C compiler that
//! targets three backends (a transputer emulator, a 16-bit embedded
//! architecture, and a conventional 64-bit architecture).
//!
//! The crate verifies the pipeline orchestration layer: which phases run, in
//! what order, with what external-tool arguments, how intermediate artifacts
//! are named and cleaned up, and how a failure in any phase is reported. The
//! lexical analyzer for the minimal C subset is verified as well.
//!
//! Process creation and file deletion are reached only through the narrow
//! capability traits [`executor::Executor`] and [`driver::FileRemover`]; a
//! production binary injects implementations backed by the operating system,
//! while tests inject recording implementations that never spawn anything.

pub mod command_line;
pub mod compiler;
pub mod compiler_command_line;
pub mod driver;
pub mod driver_controller;
pub mod executor;
pub mod exit_status;
pub mod lexer;
pub mod suffix_translator;
pub mod target_platform;
pub mod text;
