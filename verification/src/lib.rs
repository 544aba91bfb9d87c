//! An interactive bill tracker, split into a verified core and a thin
//! terminal front end.
//!
//! The core is an in-memory record store mapping bill names to amounts
//! (`store`), the menu of the terminal interface (`menu`), and the state
//! machine that drives one interactive session (`flow`). The front end
//! only reads lines, parses numbers, and prints what the state machine
//! hands back.

pub mod flow;
pub mod menu;
pub mod store;
