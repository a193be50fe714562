//! Converts one file's textual content from UTF-8 into a chosen target
//! encoding and resolves where the result is to be written: over the source
//! file itself, or into a directory under a fixed file name.
//!
//! Transcoding is total: malformed input bytes become the replacement
//! character and unrepresentable characters are substituted (and flagged),
//! so a conversion only ever fails on reading or writing a file. The I/O
//! itself is the caller's: the pipeline hands out one command at a time and
//! decides everything in between.

pub mod catalog;
pub mod pipeline;
pub mod resolver;
pub mod transcoder;

pub use catalog::EncodingSelector;
