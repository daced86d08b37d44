//! Replay-protected signed mutations and the compact tick-history wire format.

pub mod canonical;
pub mod auth;
pub mod codec;
pub mod device;
pub mod tick;
pub mod client;

pub use auth::sign;
pub use canonical::{Active, Authentication, Message, TriggerTick};
pub use tick::{Tick, TickType};
