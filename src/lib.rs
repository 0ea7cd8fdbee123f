//! Resolves a shipment's delivery status by courier and tracking number, and
//! normalizes each courier's response into one result shape.

pub mod chat;
pub mod codec;
pub mod couriers;
pub mod error;
pub mod extract;
pub mod format;
pub mod json;
pub mod laws;
pub mod markup;
pub mod pattern;
pub mod registry;
pub mod session;
pub mod state;
pub mod status;
pub mod text;
pub mod time;
pub mod transport;
