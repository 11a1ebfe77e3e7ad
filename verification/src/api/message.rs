//! Commands sent to the daemon and the payloads of its replies.

use crate::api::config::{BlobCacheObjectId, BlobPrefetchConfig};
use serde_json::Value;
use vstd::prelude::*;

verus! {

/// A JSON value of `serde_json`, which holds the configuration of a backend or
/// of a cache until the storage layer reads it.
#[verifier::external_type_specification]
#[verifier::external_body]
pub struct ExValue(Value);

/// Mount a filesystem.
#[derive(Debug)]
pub struct ApiMountCmd {
    /// Path to source of the filesystem.
    pub source: String,
    /// Type of filesystem.
    pub fs_type: String,
    /// Configuration for the filesystem.
    pub config: String,
    /// List of files to prefetch.
    pub prefetch_files: Option<Vec<String>>,
}

/// Umount a mounted filesystem.
#[derive(Debug)]
pub struct ApiUmountCmd {
    /// Path of mountpoint.
    pub mountpoint: String,
}

impl Clone for ApiUmountCmd {
    fn clone(&self) -> (r: Self)
        ensures
            r == *self,
    {
        ApiUmountCmd { mountpoint: self.mountpoint.clone() }
    }
}

/// Set or update the daemon configuration.
#[derive(Debug)]
pub struct DaemonConf {
    /// Logging level: Off, Error, Warn, Info, Debug, Trace.
    pub log_level: String,
}

impl Clone for DaemonConf {
    fn clone(&self) -> (r: Self)
        ensures
            r == *self,
    {
        DaemonConf { log_level: self.log_level.clone() }
    }
}

/// Configuration information for a cached blob.
#[derive(Debug)]
pub struct BlobCacheEntryConfig {
    /// Identifier for the blob cache configuration.
    pub id: String,
    /// Type of storage backend.
    pub backend_type: String,
    /// Configuration for the storage backend, as the backend reads it.
    pub backend_config: Value,
    /// Type of blob cache: "fscache" or "filecache".
    pub cache_type: String,
    /// Configuration for the blob cache, as the cache reads it.
    pub cache_config: Value,
    /// Configuration for data prefetch.
    pub prefetch_config: BlobPrefetchConfig,
    /// Optional file path for metadata blobs.
    pub metadata_path: Option<String>,
}

/// Blob cache object type for a bootstrap blob.
pub const BLOB_CACHE_TYPE_BOOTSTRAP: &'static str = "bootstrap";

/// Blob cache object type for a data blob.
pub const BLOB_CACHE_TYPE_DATA_BLOB: &'static str = "datablob";

/// Configuration information for a cached blob.
#[derive(Debug)]
pub struct BlobCacheEntry {
    /// Type of blob object, bootstrap or data blob.
    pub blob_type: String,
    /// Blob id.
    pub blob_id: String,
    /// Configuration information to generate blob cache object.
    pub blob_config: BlobCacheEntryConfig,
    /// Domain id for the blob, which groups cached blobs into management domains.
    pub domain_id: String,
    /// Deprecated: data prefetch configuration.
    pub fs_prefetch: Option<BlobPrefetchConfig>,
}

/// Configuration information for a list of cached blob objects.
#[derive(Debug)]
pub struct BlobCacheList {
    /// List of blob configuration information.
    pub blobs: Vec<BlobCacheEntry>,
}

impl Default for BlobCacheList {
    fn default() -> (r: Self)
        ensures
            r.blobs@.len() == 0,
    {
        BlobCacheList { blobs: Vec::new() }
    }
}

/// A request of the API server to the daemon.
#[derive(Debug)]
pub enum ApiRequest {
    /// Set daemon configuration.
    ConfigureDaemon(DaemonConf),
    /// Get daemon information.
    GetDaemonInfo,
    /// Get daemon global events.
    GetEvents,
    /// Stop the daemon.
    Exit,
    /// Start the daemon.
    Start,
    /// Send fuse fd to new daemon.
    SendFuseFd,
    /// Take over fuse fd from old daemon instance.
    TakeoverFuseFd,
    /// Mount a filesystem.
    Mount(String, ApiMountCmd),
    /// Remount a filesystem.
    Remount(String, ApiMountCmd),
    /// Unmount a filesystem.
    Umount(String),
    /// Get storage backend metrics.
    ExportBackendMetrics(Option<String>),
    /// Get blob cache metrics.
    ExportBlobcacheMetrics(Option<String>),
    /// Get filesystem global metrics.
    ExportFsGlobalMetrics(Option<String>),
    /// Get filesystem access pattern log.
    ExportFsAccessPatterns(Option<String>),
    /// Get filesystem backend information.
    ExportFsBackendInfo(String),
    /// Get filesystem file metrics.
    ExportFsFilesMetrics(Option<String>, bool),
    /// Get information about filesystem inflight requests.
    ExportFsInflightMetrics,
    /// Get daemon information excluding filesystem backends.
    GetDaemonInfoV2,
    /// Create a blob cache entry.
    CreateBlobObject(BlobCacheEntry),
    /// Get information about blob cache entries.
    GetBlobObject(BlobCacheObjectId),
    /// Delete a blob cache entry.
    DeleteBlobObject(BlobCacheObjectId),
}

/// What the daemon sends back for a request that it served.
#[derive(Debug)]
pub enum ApiResponsePayload {
    /// Filesystem backend metrics.
    BackendMetrics(String),
    /// Blobcache metrics.
    BlobcacheMetrics(String),
    /// Daemon version, configuration and status information in json.
    DaemonInfo(String),
    /// No data is sent on the channel.
    Empty,
    /// Global error events.
    Events(String),
    /// Filesystem global metrics, v1.
    FsGlobalMetrics(String),
    /// Filesystem per-file metrics, v1.
    FsFilesMetrics(String),
    /// Filesystem access pattern trace log, v1.
    FsFilesPatterns(String),
    /// Filesystem backend information, v1.
    FsBackendInfo(String),
    /// Filesystem inflight requests, v1.
    FsInflightMetrics(String),
    /// List of blob objects, v2.
    BlobObjectList(String),
}

} // verus!
