pub mod args;
pub mod checks;
pub mod cli;
pub mod cli_texts;
pub mod commit;
pub mod integrity;
pub mod iterate;
pub mod iterate_args;
pub mod json;
pub mod measure;
pub mod measure_args;
pub mod measure_laws;
pub mod measure_texts;
pub mod number;
pub mod official;
pub mod official_texts;
pub mod operations;
pub mod overlay;
pub mod overlay_args;
pub mod paths;
pub mod payload;
pub mod pool_source;
pub mod run;
pub mod score;
pub mod spec_config;
pub mod text;
pub mod track;
pub mod usage_texts;
pub mod wording;
