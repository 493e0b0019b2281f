pub mod v01;
