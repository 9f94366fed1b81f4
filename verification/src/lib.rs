//! Event-driven stock reservation: decoding inbound product and checkout
//! events, an inventory store with caller-controlled transactions, an
//! all-or-nothing reservation engine, and the rendering of outcome events.

pub mod events;
pub mod ids;
pub mod store;
pub mod engine;
mod clock;
pub mod decode;
pub mod wire;
pub mod pipeline;
pub mod laws;
pub mod stock_check;
