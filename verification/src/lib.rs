//! Cognitive core of a non-player character: what it knows, what it feels,
//! what it remembers, and the rule that picks its next action from that state.
//!
//! Every store is owned by one agent and every operation is a total,
//! synchronous function; the crate decides what to attempt next and leaves
//! carrying the action out to its host.

pub mod adaptive_intelligence;
pub mod dialogue_generation;
pub mod emotional_response;
pub mod knowledge_graph;
pub mod text;
