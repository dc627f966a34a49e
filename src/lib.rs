//! A self-updater for a long-running device program: version identifiers,
//! the remote release descriptor, the upgrade decision and the installer's
//! state machine; with them the dashboard's own logic: station summaries,
//! forecast periods, redraw decisions and the debug server's requests.

pub mod checksum;
pub mod dashboard;
pub mod debug;
pub mod drawing;
pub mod error;
pub mod install;
pub mod json;
pub mod logging;
pub mod numeral;
pub mod purpleair;
pub mod structs;
pub mod subway;
pub mod update;
pub mod version;
pub mod weather;
