//! The terminal clients of a shell session.

pub mod common;
pub mod s3h;
pub mod s3h_is;
