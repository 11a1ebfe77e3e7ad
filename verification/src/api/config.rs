//! Configuration of blob caches, prefetching and storage backends.

use vstd::prelude::*;
use vstd::string::*;

verus! {

/// Identifier for cached blob objects.
///
/// Blobs of one domain are shared; blobs of different domains are isolated.
#[derive(Debug)]
pub struct BlobCacheObjectId {
    /// Domain identifier for the object.
    pub domain_id: String,
    /// Blob identifier for the object.
    pub blob_id: String,
}

impl Clone for BlobCacheObjectId {
    fn clone(&self) -> (r: Self)
        ensures
            r == *self,
    {
        BlobCacheObjectId { domain_id: self.domain_id.clone(), blob_id: self.blob_id.clone() }
    }
}

impl Default for BlobCacheObjectId {
    fn default() -> (r: Self)
        ensures
            r.domain_id@ == Seq::<char>::empty(),
            r.blob_id@ == Seq::<char>::empty(),
    {
        BlobCacheObjectId { domain_id: String::new(), blob_id: String::new() }
    }
}

/// Configuration information for blob data prefetching.
#[derive(Clone, Copy, Debug, PartialEq, Eq, Structural, Hash)]
pub struct BlobPrefetchConfig {
    /// Whether to enable blob data prefetching.
    pub enable: bool,
    /// Number of data prefetching working threads.
    pub threads_count: usize,
    /// The maximum size of a merged IO request.
    pub merging_size: usize,
    /// Network bandwidth rate limit in bytes; zero means no limit.
    pub bandwidth_rate: u32,
}

impl Default for BlobPrefetchConfig {
    fn default() -> (r: Self)
        ensures
            r == (BlobPrefetchConfig {
                enable: false,
                threads_count: 0,
                merging_size: 0,
                bandwidth_rate: 0,
            }),
    {
        BlobPrefetchConfig { enable: false, threads_count: 0, merging_size: 0, bandwidth_rate: 0 }
    }
}

/// The working directory that a cache configuration has when none is given.
pub fn default_work_dir() -> (r: String)
    ensures
        r@ == "."@,
{
    String::from_str(".")
}

/// What the file system reports about a working directory, after an attempt
/// to create it where it was missing.
#[derive(Clone, Copy, Debug, PartialEq, Eq, Structural)]
pub enum WorkDirStat {
    /// The path exists and is a directory.
    Directory,
    /// The path exists and is something else.
    NotDirectory,
    /// The path could neither be examined nor created.
    Unavailable,
}

/// Why a working directory cannot be used.
#[derive(Clone, Copy, Debug, PartialEq, Eq, Structural)]
pub enum WorkDirError {
    /// The path could neither be examined nor created.
    Stat,
    /// The path is not a directory.
    NotDirectory,
}

/// The working directory `work_dir`, if the file system reports it as a directory.
fn usable_work_dir<'a>(work_dir: &'a String, stat: WorkDirStat) -> (r: Result<
    &'a str,
    WorkDirError,
>)
    ensures
        stat == WorkDirStat::Directory ==> r is Ok && r->Ok_0@ == work_dir@,
        stat == WorkDirStat::NotDirectory ==> r == Err::<&str, WorkDirError>(
            WorkDirError::NotDirectory,
        ),
        stat == WorkDirStat::Unavailable ==> r == Err::<&str, WorkDirError>(WorkDirError::Stat),
{
    match stat {
        WorkDirStat::Directory => Ok(work_dir.as_str()),
        WorkDirStat::NotDirectory => Err(WorkDirError::NotDirectory),
        WorkDirStat::Unavailable => Err(WorkDirError::Stat),
    }
}

/// Configuration information for file cache.
#[derive(Debug)]
pub struct FileCacheConfig {
    /// Working directory to store state and cached files.
    pub work_dir: String,
    /// Deprecated: disable index mapping, keep it as false when possible.
    pub disable_indexed_map: bool,
}

impl FileCacheConfig {
    /// The working directory, given what the file system reports about it.
    pub fn get_work_dir(&self, stat: WorkDirStat) -> (r: Result<&str, WorkDirError>)
        ensures
            stat == WorkDirStat::Directory ==> r is Ok && r->Ok_0@ == self.work_dir@,
            stat == WorkDirStat::NotDirectory ==> r == Err::<&str, WorkDirError>(
                WorkDirError::NotDirectory,
            ),
            stat == WorkDirStat::Unavailable ==> r == Err::<&str, WorkDirError>(
                WorkDirError::Stat,
            ),
    {
        usable_work_dir(&self.work_dir, stat)
    }
}

impl Clone for FileCacheConfig {
    fn clone(&self) -> (r: Self)
        ensures
            r == *self,
    {
        FileCacheConfig {
            work_dir: self.work_dir.clone(),
            disable_indexed_map: self.disable_indexed_map,
        }
    }
}

impl Default for FileCacheConfig {
    fn default() -> (r: Self)
        ensures
            r.work_dir@ == "."@,
            !r.disable_indexed_map,
    {
        FileCacheConfig { work_dir: default_work_dir(), disable_indexed_map: false }
    }
}

/// Configuration information for fscache.
#[derive(Debug)]
pub struct FsCacheConfig {
    /// Working directory to store state and cached files.
    pub work_dir: String,
}

impl FsCacheConfig {
    /// The working directory, given what the file system reports about it.
    pub fn get_work_dir(&self, stat: WorkDirStat) -> (r: Result<&str, WorkDirError>)
        ensures
            stat == WorkDirStat::Directory ==> r is Ok && r->Ok_0@ == self.work_dir@,
            stat == WorkDirStat::NotDirectory ==> r == Err::<&str, WorkDirError>(
                WorkDirError::NotDirectory,
            ),
            stat == WorkDirStat::Unavailable ==> r == Err::<&str, WorkDirError>(
                WorkDirError::Stat,
            ),
    {
        usable_work_dir(&self.work_dir, stat)
    }
}

impl Clone for FsCacheConfig {
    fn clone(&self) -> (r: Self)
        ensures
            r == *self,
    {
        FsCacheConfig { work_dir: self.work_dir.clone() }
    }
}

impl Default for FsCacheConfig {
    fn default() -> (r: Self)
        ensures
            r.work_dir@ == "."@,
    {
        FsCacheConfig { work_dir: default_work_dir() }
    }
}

/// Configuration information for network proxy.
#[derive(Debug)]
pub struct ProxyConfig {
    /// Access remote storage backend via a peer-to-peer proxy.
    pub url: String,
    /// Endpoint of the proxy's health checking.
    pub ping_url: String,
    /// Fall back to the remote storage backend if the proxy ping failed.
    pub fallback: bool,
    /// Interval of the proxy's health checking, in seconds.
    pub check_interval: u64,
}

impl Clone for ProxyConfig {
    fn clone(&self) -> (r: Self)
        ensures
            r == *self,
    {
        ProxyConfig {
            url: self.url.clone(),
            ping_url: self.ping_url.clone(),
            fallback: self.fallback,
            check_interval: self.check_interval,
        }
    }
}

impl Default for ProxyConfig {
    fn default() -> (r: Self)
        ensures
            r.url@ == Seq::<char>::empty(),
            r.ping_url@ == Seq::<char>::empty(),
            r.fallback,
            r.check_interval == 5,
    {
        ProxyConfig {
            url: String::new(),
            ping_url: String::new(),
            fallback: true,
            check_interval: 5,
        }
    }
}

/// Generic configuration for storage backends.
#[derive(Debug)]
pub struct RegistryOssConfig {
    /// Enable HTTP proxy for the read request.
    pub proxy: ProxyConfig,
    /// Skip SSL certificate validation for HTTPS scheme.
    pub skip_verify: bool,
    /// Drop the read request once the HTTP request times out, in seconds.
    pub timeout: u64,
    /// Drop the read request once the HTTP connection times out, in seconds.
    pub connect_timeout: u64,
    /// Retry count when a read request failed.
    pub retry_limit: u8,
}

impl Clone for RegistryOssConfig {
    fn clone(&self) -> (r: Self)
        ensures
            r == *self,
    {
        RegistryOssConfig {
            proxy: self.proxy.clone(),
            skip_verify: self.skip_verify,
            timeout: self.timeout,
            connect_timeout: self.connect_timeout,
            retry_limit: self.retry_limit,
        }
    }
}

impl Default for RegistryOssConfig {
    fn default() -> (r: Self)
        ensures
            r.proxy.url@ == Seq::<char>::empty(),
            r.proxy.ping_url@ == Seq::<char>::empty(),
            r.proxy.fallback,
            r.proxy.check_interval == 5,
            !r.skip_verify,
            r.timeout == 5,
            r.connect_timeout == 5,
            r.retry_limit == 0,
    {
        RegistryOssConfig {
            proxy: ProxyConfig::default(),
            skip_verify: false,
            timeout: 5,
            connect_timeout: 5,
            retry_limit: 0,
        }
    }
}

} // verus!
