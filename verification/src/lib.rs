//! Blob storage device layer of a layered, content-addressed container filesystem.
//!
//! A filesystem resolves the read of a file into reads of chunks of immutable
//! blobs. Such a read is a scatter/gather list of ranges within chunks
//! ([`io_vec::BlobIoVec`]), all against one blob. The [`device::BlobDevice`]
//! checks a list and routes it to the cache of its blob ([`cache::BlobCache`]).
//! A cache plans its work with [`read_plan`]: chunks that are not in local
//! storage are fetched from the storage backend, those that follow each other
//! in the compressed blob in one request ([`io_range::BlobIoRange`]), and
//! [`chunk_state`] sees to it that a chunk is fetched by one reader at a time.
//! The [`factory::BlobFactory`] lets the devices of a process share the cache
//! of a blob, and [`api`] holds what the control plane of the daemon says.
//!
//! Every executable function carries a contract over the mathematical model of
//! its arguments, and Verus proves the body against it.

pub mod api;
pub mod blob_info;
pub mod cache;
pub mod chunk;
pub mod chunk_state;
pub mod compress;
pub mod device;
pub mod digest;
pub mod error;
pub mod factory;
pub mod features;
pub mod io_range;
pub mod io_vec;
pub mod read_plan;
