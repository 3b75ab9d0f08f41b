pub mod asset;
pub mod controller;
pub mod greeting;
pub mod watcher;
