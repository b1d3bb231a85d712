//! Verified core of a batch audio-to-WAV conversion tool.
//!
//! The library holds everything the tool decides or computes: command-line
//! validation, discovery of candidate files by extension, resolution of the
//! worker-pool size, planning of one conversion task per discovered file,
//! normalization of decoded audio metadata, the per-file failure reports,
//! and the completion barrier that gates deletion of the originals.
//! The surrounding binary only performs the I/O these decisions call for.
pub mod args;
pub mod discovery;
pub mod dispatch;
pub mod task;
pub mod text;
