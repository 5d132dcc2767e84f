//! Fixed-size binary file headers: a 4-byte magic tag identifying the file
//! kind, followed by a 4-byte little-endian format version number. Readers
//! use the header to reject foreign or incompatible files before touching
//! the payload bytes that follow it.

pub mod file_header;
pub mod serialization;
