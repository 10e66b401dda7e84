//! The core of a speed-reading viewer: the words of a dropped text file are
//! shown one at a time, at an adjustable rate.
//!
//! The crate holds no window, no font and no file. It is driven by plain
//! values (a drag notification, a content type, the loader's report, the
//! nanoseconds that a frame took) and answers with what is to be drawn.
//!
//! - [`reader`] holds the state and the entry points of the event loop.
//! - [`ingest`] tracks drags and drops, and the load that is waited for.
//! - [`loader`] decodes the bytes of a loaded file.
//! - [`words`] splits a text into words; [`document`] keeps them.
//! - [`playback`] keeps speed and position, in whole numbers throughout.
//! - [`render`] selects what is drawn; [`decimal`] writes its numbers.
//! - [`strings`] and [`error`] serve the others.

pub mod decimal;
pub mod document;
pub mod error;
pub mod ingest;
pub mod loader;
pub mod playback;
pub mod reader;
pub mod render;
pub mod strings;
pub mod words;
