pub mod processing;
pub mod text;
pub mod time;
pub mod formatting;
pub mod autoplay;
pub mod track;
pub mod ui;
pub mod latency;
pub mod search;
pub mod files;
pub mod regex_extract;
pub mod random;
pub mod playback;
pub mod ordering;
pub mod cache;
pub mod loaded;
pub mod database;
pub mod context;
pub mod config;
pub mod hashing;
pub mod settings;
