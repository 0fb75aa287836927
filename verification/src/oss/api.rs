pub mod catalogs;
pub mod schemas;
pub mod tables;
