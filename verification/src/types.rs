//! The data types that travel through the pipe.

pub mod packet;
