//! Response-body post-processing: a content decoder that turns a possibly
//! gzip-compressed sequence of byte chunks into a decompressed one, and the
//! decision logic of a blocking bridge over an asynchronous computation.

pub mod decoder;
pub mod gzip;
pub mod headers;
pub mod inflate;
pub mod reader;
pub mod wait;
