//! Tracks a user's upcoming public-transit departure: a conversation
//! state machine drives the city → address → station → line → interval
//! flow, a task registry holds one cancellable tracking task per user,
//! and an adaptive scheduler recomputes the remaining time each tick,
//! polling more densely as the departure nears.
//!
//! Everything that decides is here and verified; transport, HTTP and the
//! clock live outside and hand in plain values.

pub mod structs;
pub mod text;
pub mod times;
pub mod registry;
pub mod scheduler;
pub mod userdb;
pub mod convo;
