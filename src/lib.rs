//! A small image service: uploads are stored under a generated name, and a
//! stored image can then be transformed by one of a fixed set of operations.

pub mod text;
pub mod operation;
pub mod picture;
pub mod naming;
pub mod response;
pub mod process;
pub mod upload;
