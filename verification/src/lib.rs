//! Native-side core of a desktop note-taking shell: a verified supervisor for a
//! fixed set of long-running helper processes (an inference server and several
//! port-bound workers), plus the pure logic behind the shell's media and file
//! commands (base64 data URLs, note/folder name generation).
//!
//! The supervisor is modelled as a registry of per-identifier slots and a set of
//! transition functions from the current state and an observed outside event
//! (a liveness probe, a spawn outcome, a tree-kill outcome) to the next state
//! and the command's result. The surrounding runtime performs the actual
//! process operations and feeds their outcomes back into these transitions.

pub mod classify;
pub mod decimal;
pub mod errors;
pub mod ids;
pub mod launch;
pub mod laws;
pub mod media;
pub mod notes;
pub mod registry;
pub mod supervisor;
