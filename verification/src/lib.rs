//! Media transformations for a command-line tool: recompressing a JPEG image
//! with optional resizing, and building the argument vectors handed to an
//! external transcoder for rotating, trimming and thumbnailing videos.
//!
//! The compression works in stages.  `segment` keeps the metadata of the
//! input, `grid` holds decoded pixels, `resample` scales them, `encode`
//! writes them out again with the metadata in front, and `pipeline` decides
//! what happens in which order and what ends a run.  `config` holds the
//! parameters and the defaults, `report` the progress messages, `transcoder`
//! the video commands, `decimal` the numbers in them, and `error` what can go
//! wrong.
//!
//! Every function in this crate is verified with Verus.  The places where an
//! outside crate is called are small, clearly marked wrappers whose contracts
//! are trusted rather than proved: the JPEG encoder in `codec`, the resize
//! filter in `resample`, and the size label in `report`.

pub mod codec;
pub mod config;
pub mod decimal;
pub mod encode;
pub mod error;
pub mod grid;
pub mod pipeline;
pub mod report;
pub mod resample;
pub mod segment;
pub mod transcoder;
