pub mod engine;
pub mod error;
pub mod feedback;
pub mod overlay;
pub mod pattern;
pub mod resolver;
pub mod survey;
