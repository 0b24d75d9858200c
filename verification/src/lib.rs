//! A queue of video rendering jobs, with its rules stated and proved.

pub mod attempts;
pub mod clock;
pub mod effect;
pub mod float64;
pub mod formats;
pub mod item;
pub mod laws;
pub mod loading;
pub mod loading_laws;
pub mod model;
pub mod operation_laws;
pub mod options;
pub mod output_path;
pub mod queue;
pub mod smoothing;
pub mod text;
pub mod view_laws;
