pub mod access;
pub mod catalog_importer;
