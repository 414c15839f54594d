//! Shuffle serving for a distributed data-processing engine: where a worker
//! keeps its shuffle output on disk, how it acquires a listening endpoint, and
//! how it answers requests of other workers for cached shuffle blocks.
//!
//! Nothing here touches the disk or the network: the functions decide and
//! compute, and the caller performs the work that they ask for. The only
//! calls that leave the library draw random numbers and identifiers.

pub mod cache;
pub mod decimal;
pub mod endpoint;
pub mod error;
pub mod manager;
pub mod response;
pub mod routing;
pub mod service;
pub mod text;
pub mod workdir;
