//! Execution host for a single dataflow node's embedded operator.
//!
//! The host loads one user-supplied operator, feeds it incoming events one at
//! a time, interprets the status code its handler returns, and classifies the
//! terminal outcome of the run into exactly one lifecycle event.  Everything
//! that decides — the status protocol, the dispatch loop's state machine, the
//! failure taxonomy, the output bridge's event construction, and the source
//! locator's path derivation — lives here, verified.  The embedding of the
//! foreign interpreter itself and all channel I/O stay outside the library.
//!
//! Beside the host stands the graph visualizer: a pure, stateless projection
//! of resolved node, operator and input-mapping records into a flowchart
//! diagram, verified against a character-exact rendering specification.

pub mod bridge;
pub mod dispatch;
pub mod errors;
pub mod events;
pub mod locate;
pub mod messages;
pub mod status;
pub mod visualize;
