//! A sphere-tracing renderer's verified core: the row-major image grid, the
//! scene's nearest-object selection and the per-pixel render orchestration.
pub mod image;
pub mod render;
pub mod scene;
