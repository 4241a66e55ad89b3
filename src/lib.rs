//! Metadata generation for long-form articles: prompt assembly under a model
//! budget, the two-stage generate/format pipeline, and the validation of what
//! the language model answers.

pub mod constants;
pub mod error;
pub mod formatter;
pub mod generator;
pub mod metadata;
pub mod model;
pub mod pipeline;
pub mod prompt;
pub mod response;
pub mod run;
pub mod templates;
pub mod text;
