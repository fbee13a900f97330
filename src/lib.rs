//! Decoding of the header that opens a gzip member: the fixed preamble, the
//! sections that the flag byte switches on, and the trailing header checksum.
pub mod bytes;
pub mod header;
pub mod decoder;
pub mod laws;
