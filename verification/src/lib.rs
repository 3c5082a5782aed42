//! Verified core of an OSC remote for the Zoom desktop client: packet
//! decoding, command dispatch, label matching, bounded searches through the
//! accessibility tree and the decision machines behind each remote command.

pub mod osc;
pub mod text;
pub mod keys;
pub mod command;
pub mod walk;
pub mod labels;
pub mod workflow;
pub mod pid;
pub mod laws;
