//! Domain core of a to-do list service: validation of raw input into
//! invariant-respecting value objects, the entity rules that gate field
//! mutation on completion state, a storage-agnostic repository contract,
//! and the command and query handlers built on top of it.

pub mod entities;
pub mod errors;
pub mod handlers;
pub mod memory;
pub mod repository;
pub mod validation;
