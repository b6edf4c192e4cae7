//! Streams bytes out of a bounded in-memory pipe as a sequence of owned
//! chunks, so that a blocking producer can feed a request body that is
//! pulled piece by piece.

pub mod chunk;
pub mod conduit;
pub mod stream;
pub mod transfer;
