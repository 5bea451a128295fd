//! Decoding of compiled file-type detection rule databases.

pub mod endian;

pub mod value;
pub mod magic;
pub mod structs;
pub mod loader;
