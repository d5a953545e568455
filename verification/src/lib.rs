//! A keyboard-driven, two-stage model selection flow for a terminal
//! onboarding step: the user picks a model from a fetched catalog, then a
//! reasoning-effort level for it, and the choice is persisted.
//!
//! The library owns all state and every decision of the flow. The host is
//! expected to drive it: perform the catalog fetch when the status is
//! `Loading` and hand the outcome to `load_presets`, perform the durable
//! write when a key event yields a `SaveRequest` and hand the outcome to
//! `apply_save_result`, and draw the rows that the render queries return.

pub mod scroll;
pub mod effort;
pub mod preset;
pub mod controller;
pub mod render;
pub mod version;
pub mod telemetry;
