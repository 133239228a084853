//! The overlay: the merge of a sealed gates score with the timing of a paired run.
pub mod composite;
pub mod gates;
pub mod laws;
pub mod members;
pub mod merge;
pub mod pool;
pub mod refusal_laws;
pub mod refusals;
pub mod series;
pub mod view;
pub mod wording;
