//! The command-line tool's logic: its update checker and how it reads its
//! arguments.

pub mod updater;
pub mod commands;
