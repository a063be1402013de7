//! Session lifecycle and fan-out delivery engine for publishing account
//! balances from a desktop accounting engine to a spreadsheet sink.

pub mod balance;
pub mod clock;
pub mod dispatch;
pub mod google_sheets;
pub mod guarantees;
pub mod independence;
pub mod lifecycle;
pub mod orchestrator;
pub mod session;
pub mod settings;
pub mod tally;
pub mod targets;
