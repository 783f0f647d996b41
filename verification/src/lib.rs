//! Sending a byte stream to a serial device: validated line parameters, and
//! the decisions of one transfer as a state machine that the caller drives.

pub mod config;
pub mod line;
pub mod settings;
pub mod transfer;
pub mod trace;
pub mod decimal;
pub mod report;
