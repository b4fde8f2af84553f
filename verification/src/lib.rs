//! Usage-meter core of Money Like Water: data-source settings and their
//! migration, the JSON value-path language used to read provider replies,
//! and the rules that turn provider replies into usage snapshots.

pub mod chatgpt;
pub mod clock;
pub mod codex;
pub mod config;
pub mod decimal;
pub mod http_source;
pub mod json;
pub mod meter;
pub mod providers;
pub mod sources;
pub mod text;
pub mod transform_scripts;
pub mod usage;
