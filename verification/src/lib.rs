//! Frame-persistent scene state for a retained-mode rendering engine.
//!
//! The crate keeps the authoritative description of a rendered scene between
//! frames: which sub-documents ("pipelines") are visible and at which version,
//! which one is the root of composition, and the externally animated property
//! values (transforms and scalar opacities) that can change without the scene
//! content being resubmitted.
//!
//! - [`properties::SceneProperties`] holds the resolved values of
//!   dynamically-bound properties and runs a dirty-checked merge/flush
//!   protocol over pending update batches, so that a frame rebuild can be
//!   skipped when a whole transaction round-trips to the same values.
//! - [`registry::Scene`] holds the visible pipelines, their epochs and the
//!   root reference.
//! - [`compositing`] converts per-stacking-context compositing attributes
//!   (mix-blend mode, filters, filter data, filter primitives) from their
//!   decoded wire form into the engine's internal representation.

pub mod compositing;
pub mod properties;
pub mod registry;
pub mod units;
