//! Verified core of a lint that checks that functions marked realtime call
//! only realtime code.
pub mod text;
pub mod marker;
pub mod attr_macros;
pub mod var_table;
pub mod lint;
pub mod timestamp;
pub mod sample_app;
pub mod laws;
