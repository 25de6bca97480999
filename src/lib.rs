//! Client protocol for a solar-inverter cloud token service and its local gateway.

pub mod entrez;
pub mod envoy;
pub mod error;
pub mod models;
pub mod request;
pub mod text;

pub use error::{EnphaseError, Result};
pub use models::{PowerState, PowerStatusResponse};
pub use request::{Body, Method, Request};
