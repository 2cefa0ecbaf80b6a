//! Adapter layer that projects backend coding-agent notifications into one
//! canonical "universal event" model, and best-effort back again.
//!
//! The canonical model lives in `model` and its wire shape in `event_json`;
//! the backend's notification union lives in `codex` and its wire encoding in
//! `wire`; `adapter` holds the conversions in both directions and `laws` the
//! conversion policies, proved once over the whole input space. `json` holds
//! the JSON tree that serialized payloads travel in.

pub mod adapter;
pub mod codex;
pub mod event_json;
pub mod json;
pub mod laws;
pub mod model;
pub mod wire;
