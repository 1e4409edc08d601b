//! Hazard summaries from a weather provider's current conditions and forecast.
//!
//! `decimal` reads the provider's numeric text exactly, `snapshot` builds the
//! typed snapshot from a decoded response, `hazard` classifies it, `render`
//! turns the result into text and `request` holds the decisions around the
//! single HTTP request.
pub mod decimal;
pub mod snapshot;
pub mod hazard;
pub mod render;
pub mod request;
