pub mod api;
pub mod schemas;
pub mod tables;
