//! A one-shot scaffolder for new Yew web applications.
//!
//! The library holds the tool's whole decision logic: reading the single
//! command line apart (`text`, `command`) and laying out the exact sequence
//! of filesystem steps with their exact contents (`scaffold`). A thin
//! binary shell reads standard input, spawns the project generator and
//! performs the file writes that the plan prescribes.

pub mod command;
pub mod scaffold;
pub mod text;
