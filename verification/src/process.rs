//! The rendering pipeline: building a compiled worker from a scene and a
//! view, the progressive render loop, and image postprocessing.

pub mod postproc;
pub mod render;
