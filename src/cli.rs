//! Command-line subcommand data.
pub mod sounds;
