//! Model acquisition planning and audio capture logic for a streaming
//! speech-to-text pipeline.

pub mod model;
pub mod text;
pub mod padding;
pub mod recorder;
pub mod store;
pub mod archive;
