pub mod api;
pub mod config;
pub mod download;
pub mod error;
pub mod paths;
pub mod post;
pub mod progress;
pub mod sources;
pub mod storage;
pub mod sync;
pub mod text;
pub mod time;
