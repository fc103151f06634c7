pub mod server;
pub mod service;
pub mod syncer;
