//! Race management core: the entity model, the per-event store, the state
//! actor's handlers and the decisions of the timing-device link.

pub mod model;
pub mod store;
pub mod actor;
pub mod device;
pub mod laws;
