//! Generation of collision-resistant unique identifiers (CUID2-style) and
//! formatting of identifier lists for output.
//!
//! An identifier combines a timestamp, a per-generator counter, a process
//! fingerprint and fresh entropy, hashes the combination, and encodes the
//! digest in the lowercase base-36 alphabet. The result is a fixed-length
//! string of lowercase letters and digits whose first character is a letter.

pub mod base36;
pub mod bytes;
pub mod clock;
pub mod entropy;
pub mod errors;
pub mod generator;
pub mod hashing;
pub mod output;
