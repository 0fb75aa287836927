pub mod catalogs;
