pub mod db;
pub mod filesystem;
pub mod metadata;
