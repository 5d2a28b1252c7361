//! A small entity/component system: bit-flag component sets, an entity
//! registry with generational handles, per-component storage and flag queries.

/// Fixed-width flag sets.
pub mod bitsets;
/// Component flags and component value types.
pub mod components;
/// Entity handles and the slot maps that store entities and components.
pub mod storage;
/// The world: entity creation and removal, component attachment, queries.
pub mod game;
/// The fixed-timestep accumulator that paces logic steps.
pub mod clock;
