pub mod tenant;
