//! Local background-removal pipeline: a static model catalog, a model store
//! keyed on per-user storage, a streaming download planner with progress
//! accounting, the integer core of the segmentation mask pipeline, and a
//! batch orchestrator with partial-failure semantics.

pub mod batch;
pub mod catalog;
pub mod download;
pub mod mask;
pub mod paths;
pub mod store;
