//! Continuous-integration workflow generation for Python packages with a
//! compiled extension: an abstract pipeline graph of jobs and steps, and the
//! renderers that turn it into a provider's YAML.
pub mod bridge;
pub mod ci;
pub mod laws;
pub mod pipeline;
pub mod platform;
pub mod render;
pub mod text;
