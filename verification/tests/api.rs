use blob_device::api::config::{
    default_work_dir, BlobCacheObjectId, BlobPrefetchConfig, FileCacheConfig, FsCacheConfig,
    ProxyConfig, RegistryOssConfig, WorkDirError, WorkDirStat,
};
use blob_device::api::error::{
    translate_status_code, ApiError, DaemonErrorKind, HttpError, IoStatsError, MetricsErrorKind,
    StatusCode,
};
use blob_device::api::message::{
    BlobCacheEntry, BlobCacheEntryConfig, BlobCacheList, BLOB_CACHE_TYPE_BOOTSTRAP,
    BLOB_CACHE_TYPE_DATA_BLOB,
};
use blob_device::api::query::{extract_query_part, find_query_value, query_part};
use blob_device::api::response::{
    error_response, reply_of, route_http_request, success_response, Reply, ReplyBody,
};
use blob_device::api::routes::{
    endpoint_v1, endpoint_v2, http_routes, Endpoint, HttpRoutes, HTTP_ROOT_V1, HTTP_ROOT_V2,
};
use blob_device::api::server::{server_action, ServerAction, EXIT_TOKEN, REQUEST_TOKEN};
use dbs_uhttp::Request;

#[test]
fn test_http_api_routes_v1() {
    let routes = http_routes();
    assert!(routes.get("/api/v1/daemon").is_some());
    assert!(routes.get("/api/v1/daemon/events").is_some());
    assert!(routes.get("/api/v1/daemon/backend").is_some());
    assert!(routes.get("/api/v1/daemon/start").is_some());
    assert!(routes.get("/api/v1/daemon/exit").is_some());
    assert!(routes.get("/api/v1/daemon/fuse/sendfd").is_some());
    assert!(routes.get("/api/v1/daemon/fuse/takeover").is_some());
    assert!(routes.get("/api/v1/mount").is_some());
    assert!(routes.get("/api/v1/metrics").is_some());
    assert!(routes.get("/api/v1/metrics/files").is_some());
    assert!(routes.get("/api/v1/metrics/pattern").is_some());
    assert!(routes.get("/api/v1/metrics/backend").is_some());
    assert!(routes.get("/api/v1/metrics/blobcache").is_some());
    assert!(routes.get("/api/v1/metrics/inflight").is_some());
}

#[test]
fn test_http_api_routes_v2() {
    let routes = http_routes();
    assert!(routes.get("/api/v2/daemon").is_some());
    assert!(routes.get("/api/v2/blobs").is_some());
}

#[test]
fn test_http_routes_endpoints() {
    let routes = http_routes();
    assert_eq!(routes.get("/api/v1/daemon"), Some(Endpoint::Info));
    assert_eq!(routes.get("/api/v2/daemon"), Some(Endpoint::InfoV2));
    assert_eq!(routes.get("/api/v1/daemon/events"), Some(Endpoint::Events));
    assert_eq!(routes.get("/api/v1/daemon/exit"), Some(Endpoint::Exit));
    assert_eq!(routes.get("/api/v1/daemon/start"), Some(Endpoint::Start));
    assert_eq!(routes.get("/api/v1/daemon/backend"), Some(Endpoint::FsBackendInfo));
    assert_eq!(routes.get("/api/v1/daemon/fuse/sendfd"), Some(Endpoint::SendFuseFd));
    assert_eq!(
        routes.get("/api/v1/daemon/fuse/takeover"),
        Some(Endpoint::TakeoverFuseFd)
    );
    assert_eq!(routes.get("/api/v1/mount"), Some(Endpoint::Mount));
    assert_eq!(routes.get("/api/v1/metrics"), Some(Endpoint::MetricsFsGlobal));
    assert_eq!(routes.get("/api/v1/metrics/files"), Some(Endpoint::MetricsFsFiles));
    assert_eq!(
        routes.get("/api/v1/metrics/pattern"),
        Some(Endpoint::MetricsFsAccessPattern)
    );
    assert_eq!(routes.get("/api/v1/metrics/backend"), Some(Endpoint::MetricsBackend));
    assert_eq!(
        routes.get("/api/v1/metrics/blobcache"),
        Some(Endpoint::MetricsBlobcache)
    );
    assert_eq!(
        routes.get("/api/v1/metrics/inflight"),
        Some(Endpoint::MetricsFsInflight)
    );
    assert_eq!(routes.get("/api/v2/blobs"), Some(Endpoint::BlobObjectListV2));
    assert_eq!(routes.get("/api/v2/mount"), None);
    assert_eq!(routes.get("/api/v1/blobs"), None);
    assert_eq!(routes.get("/api/v1/daemon/"), None);
    assert_eq!(routes.get(""), None);
}

#[test]
fn test_http_routes_insert() {
    let mut routes = HttpRoutes::new();
    assert_eq!(routes.get("/a"), None);
    routes.insert("/a".to_string(), Endpoint::Mount);
    routes.insert("/b".to_string(), Endpoint::Exit);
    assert_eq!(routes.get("/a"), Some(Endpoint::Mount));
    assert_eq!(routes.get("/b"), Some(Endpoint::Exit));
    // A later route replaces an earlier one with the same path.
    routes.insert("/a".to_string(), Endpoint::Start);
    assert_eq!(routes.get("/a"), Some(Endpoint::Start));
    assert_eq!(routes.get("/b"), Some(Endpoint::Exit));
    assert_eq!(endpoint_v1("/x"), "/api/v1/x");
    assert_eq!(endpoint_v2("/x"), "/api/v2/x");
    assert_eq!(HTTP_ROOT_V1, "/api/v1");
    assert_eq!(HTTP_ROOT_V2, "/api/v2");
}

#[test]
fn test_blob_prefetch_config() {
    let config = BlobPrefetchConfig::default();
    assert!(!config.enable);
    assert_eq!(config.threads_count, 0);
    assert_eq!(config.merging_size, 0);
    assert_eq!(config.bandwidth_rate, 0);

    let config = BlobPrefetchConfig {
        enable: true,
        threads_count: 2,
        merging_size: 4,
        bandwidth_rate: 5,
    };
    assert!(config.enable);
    assert_eq!(config.threads_count, 2);
    assert_eq!(config.merging_size, 4);
    assert_eq!(config.bandwidth_rate, 5);
    assert_ne!(config, BlobPrefetchConfig::default());
}

#[test]
fn test_file_cache_config() {
    let config = FileCacheConfig::default();
    assert_eq!(&config.work_dir, ".");
    assert!(!config.disable_indexed_map);

    let config = FileCacheConfig {
        work_dir: "/tmp".to_string(),
        disable_indexed_map: true,
    };
    assert_eq!(&config.work_dir, "/tmp");
    assert!(config.get_work_dir(WorkDirStat::Directory).is_ok());
    assert_eq!(config.get_work_dir(WorkDirStat::Directory), Ok("/tmp"));
    assert!(config.disable_indexed_map);

    let config = FileCacheConfig {
        work_dir: "/proc/mounts".to_string(),
        disable_indexed_map: true,
    };
    assert!(config.get_work_dir(WorkDirStat::NotDirectory).is_err());
    assert_eq!(
        config.get_work_dir(WorkDirStat::NotDirectory),
        Err(WorkDirError::NotDirectory)
    );
    assert_eq!(
        config.get_work_dir(WorkDirStat::Unavailable),
        Err(WorkDirError::Stat)
    );
    assert_eq!(config.clone().work_dir, "/proc/mounts");
}

#[test]
fn test_fs_cache_config() {
    let config = FsCacheConfig::default();
    assert_eq!(&config.work_dir, ".");

    let config = FsCacheConfig {
        work_dir: "/tmp".to_string(),
    };
    assert_eq!(&config.work_dir, "/tmp");
    assert!(config.get_work_dir(WorkDirStat::Directory).is_ok());
    assert_eq!(config.get_work_dir(WorkDirStat::Directory), Ok("/tmp"));

    let config = FsCacheConfig {
        work_dir: "/proc/mounts".to_string(),
    };
    assert!(config.get_work_dir(WorkDirStat::NotDirectory).is_err());
    assert_eq!(
        config.get_work_dir(WorkDirStat::Unavailable),
        Err(WorkDirError::Stat)
    );
}

#[test]
fn test_default_work_dir() {
    assert_eq!(default_work_dir(), ".");
}

#[test]
fn test_common_config() {
    let config = RegistryOssConfig::default();

    assert_eq!(config.timeout, 5);
    assert_eq!(config.connect_timeout, 5);
    assert_eq!(config.retry_limit, 0);
    assert_eq!(config.proxy.check_interval, 5);
    assert!(config.proxy.fallback);
    assert_eq!(config.proxy.ping_url, "");
    assert_eq!(config.proxy.url, "");
    assert!(!config.skip_verify);

    let proxy = ProxyConfig::default();
    assert_eq!(proxy.url, "");
    assert_eq!(proxy.ping_url, "");
    assert!(proxy.fallback);
    assert_eq!(proxy.check_interval, 5);
    assert_eq!(config.clone().proxy.check_interval, 5);
}

#[test]
fn test_blob_cache_defaults() {
    let id = BlobCacheObjectId::default();
    assert_eq!(id.domain_id, "");
    assert_eq!(id.blob_id, "");
    assert!(BlobCacheList::default().blobs.is_empty());
    assert_eq!(BLOB_CACHE_TYPE_BOOTSTRAP, "bootstrap");
    assert_eq!(BLOB_CACHE_TYPE_DATA_BLOB, "datablob");
}

#[test]
fn test_extract_query_part() {
    let req = Request::try_from(
        b"GET http://localhost/api/v1/daemon?arg1=test HTTP/1.0\r\n\r\n",
        None,
    )
    .unwrap();
    let arg1 = extract_query_part(&req, "arg1").unwrap();
    assert_eq!(arg1, "test");
    assert!(extract_query_part(&req, "arg2").is_none());
}

#[test]
fn test_query_part() {
    assert_eq!(
        query_part("/api/v1/daemon?arg1=test", "arg1"),
        Some("test".to_string())
    );
    assert_eq!(query_part("/api/v1/daemon?arg1=test", "arg"), None);
    assert_eq!(query_part("/api/v1/daemon", "arg1"), None);
    // The first of two values is taken, and values are decoded.
    assert_eq!(
        query_part("/api/v1/mount?mountpoint=%2Fmnt+a&mountpoint=b", "mountpoint"),
        Some("/mnt a".to_string())
    );
    assert_eq!(query_part("/m?a=1&b=2", "b"), Some("2".to_string()));
    assert_eq!(query_part("/m?a", "a"), Some(String::new()));
    // A path that makes no URL has no parameters.
    assert_eq!(query_part("//[", "a"), None);
}

#[test]
fn test_find_query_value() {
    let pairs = vec![
        ("a".to_string(), "1".to_string()),
        ("b".to_string(), "2".to_string()),
        ("a".to_string(), "3".to_string()),
    ];
    assert_eq!(find_query_value(&pairs, "a"), Some("1".to_string()));
    assert_eq!(find_query_value(&pairs, "b"), Some("2".to_string()));
    assert_eq!(find_query_value(&pairs, "c"), None);
    assert_eq!(find_query_value(&vec![], "a"), None);
}

#[test]
fn test_translate_status_code() {
    let code = |e: ApiError| translate_status_code(&e);
    assert_eq!(
        code(ApiError::DaemonAbnormal(DaemonErrorKind::NotReady)),
        StatusCode::ServiceUnavailable
    );
    assert_eq!(
        code(ApiError::MountFilesystem(DaemonErrorKind::NotReady)),
        StatusCode::ServiceUnavailable
    );
    assert_eq!(
        code(ApiError::DaemonAbnormal(DaemonErrorKind::Unsupported)),
        StatusCode::NotImplemented
    );
    assert_eq!(
        code(ApiError::MountFilesystem(DaemonErrorKind::UnexpectedEvent(
            "e".to_string()
        ))),
        StatusCode::BadRequest
    );
    assert_eq!(
        code(ApiError::DaemonAbnormal(DaemonErrorKind::Other("o".to_string()))),
        StatusCode::InternalServerError
    );
    assert_eq!(
        code(ApiError::DaemonAbnormal(DaemonErrorKind::UpgradeManager)),
        StatusCode::InternalServerError
    );
    assert_eq!(
        code(ApiError::Metrics(MetricsErrorKind::Stats(
            IoStatsError::NoCounter
        ))),
        StatusCode::NotFound
    );
    assert_eq!(
        code(ApiError::Metrics(MetricsErrorKind::Daemon(
            DaemonErrorKind::NotReady
        ))),
        StatusCode::InternalServerError
    );
    assert_eq!(
        code(ApiError::Events("e".to_string())),
        StatusCode::InternalServerError
    );
    assert_eq!(code(ApiError::ResponsePayloadType), StatusCode::InternalServerError);
}

#[test]
fn test_status_code_numbers() {
    assert_eq!(StatusCode::Continue.code(), 100);
    assert_eq!(StatusCode::OK.code(), 200);
    assert_eq!(StatusCode::NoContent.code(), 204);
    assert_eq!(StatusCode::BadRequest.code(), 400);
    assert_eq!(StatusCode::Unauthorized.code(), 401);
    assert_eq!(StatusCode::NotFound.code(), 404);
    assert_eq!(StatusCode::MethodNotAllowed.code(), 405);
    assert_eq!(StatusCode::PayloadTooLarge.code(), 413);
    assert_eq!(StatusCode::InternalServerError.code(), 500);
    assert_eq!(StatusCode::NotImplemented.code(), 501);
    assert_eq!(StatusCode::ServiceUnavailable.code(), 503);
}

fn error_text(reply: &Reply) -> (String, String) {
    match &reply.body {
        Some(ReplyBody::Error(m)) => (m.code.clone(), m.message.clone()),
        _ => panic!("no error message"),
    }
}

#[test]
fn test_responses() {
    let r = success_response(Some("body".to_string()));
    assert_eq!(r.status, StatusCode::OK);
    assert!(matches!(r.body, Some(ReplyBody::Text(ref t)) if t == "body"));
    let r = success_response(None);
    assert_eq!(r.status, StatusCode::NoContent);
    assert!(r.body.is_none());

    let r = error_response(HttpError::NoRoute, StatusCode::NotFound);
    assert_eq!(r.status, StatusCode::NotFound);
    assert_eq!(error_text(&r), ("UNDEFINED".to_string(), "NoRoute".to_string()));
    let r = error_response(
        HttpError::QueryString("id".to_string()),
        StatusCode::BadRequest,
    );
    assert_eq!(
        error_text(&r),
        ("UNDEFINED".to_string(), "QueryString(\"id\")".to_string())
    );
    let r = error_response(
        HttpError::Mount(ApiError::MountFilesystem(DaemonErrorKind::NotReady)),
        StatusCode::ServiceUnavailable,
    );
    assert_eq!(r.status, StatusCode::ServiceUnavailable);
    assert_eq!(error_text(&r).1, "Mount(MountFilesystem(NotReady))");
}

#[test]
fn test_route_http_request() {
    let routes = http_routes();
    assert!(matches!(
        route_http_request(&routes, Some("/api/v1/mount")),
        Ok(Endpoint::Mount)
    ));
    let missing = route_http_request(&routes, Some("/api/v3/mount")).unwrap_err();
    assert_eq!(missing.status, StatusCode::NotFound);
    assert_eq!(
        error_text(&missing),
        ("UNDEFINED".to_string(), "NoRoute".to_string())
    );
    let bad = route_http_request(&routes, None).unwrap_err();
    assert_eq!(bad.status, StatusCode::BadRequest);
    assert_eq!(error_text(&bad).1, "BadRequest");

    let served = reply_of(Ok(success_response(None)));
    assert_eq!(served.status, StatusCode::NoContent);
    let failed = reply_of(Err(HttpError::QueryString("id".to_string())));
    assert_eq!(failed.status, StatusCode::BadRequest);
    assert_eq!(
        error_text(&failed),
        ("UNDEFINED".to_string(), "QueryString(\"id\")".to_string())
    );
}

fn prefetch(enable: bool, threads_count: usize, merging_size: usize) -> BlobPrefetchConfig {
    BlobPrefetchConfig {
        enable,
        threads_count,
        merging_size,
        bandwidth_rate: 5,
    }
}

fn entry(
    prefetch_config: BlobPrefetchConfig,
    fs_prefetch: Option<BlobPrefetchConfig>,
) -> BlobCacheEntry {
    BlobCacheEntry {
        blob_type: "bootstrap".to_string(),
        blob_id: "blob1".to_string(),
        blob_config: BlobCacheEntryConfig {
            id: "cache1".to_string(),
            backend_type: "localfs".to_string(),
            backend_config: serde_json::Value::Object(serde_json::Map::new()),
            cache_type: "fscache".to_string(),
            cache_config: serde_json::Value::Object(serde_json::Map::new()),
            prefetch_config,
            metadata_path: Some("/tmp/metadata1".to_string()),
        },
        domain_id: "domain1".to_string(),
        fs_prefetch,
    }
}

#[test]
fn test_blob_cache_entry() {
    let config = entry(prefetch(true, 2, 4), Some(prefetch(true, 2, 4)));
    assert_eq!(&config.blob_type, BLOB_CACHE_TYPE_BOOTSTRAP);
    assert_eq!(&config.blob_id, "blob1");
    assert_eq!(&config.domain_id, "domain1");
    assert_eq!(&config.blob_config.id, "cache1");
    assert_eq!(&config.blob_config.backend_type, "localfs");
    assert_eq!(&config.blob_config.cache_type, "fscache");
    assert!(config.blob_config.cache_config.is_object());
    assert!(config.blob_config.prefetch_config.enable);
    assert_eq!(config.blob_config.prefetch_config.threads_count, 2);
    assert_eq!(config.blob_config.prefetch_config.merging_size, 4);
    assert_eq!(
        config.blob_config.metadata_path.as_ref().unwrap().as_str(),
        "/tmp/metadata1"
    );
    assert!(config.fs_prefetch.is_some());

    let config = entry(BlobPrefetchConfig::default(), None);
    assert!(!config.blob_config.prefetch_config.enable);
    assert_eq!(config.blob_config.prefetch_config.threads_count, 0);
    assert_eq!(config.blob_config.prefetch_config.merging_size, 0);
    assert!(config.fs_prefetch.is_none());
}

#[test]
fn test_registry_oss_config() {
    let config = RegistryOssConfig {
        proxy: ProxyConfig {
            url: "http://proxy.com".to_string(),
            ping_url: "http://proxy.com/ping".to_string(),
            fallback: true,
            check_interval: 10,
        },
        skip_verify: true,
        timeout: 60,
        connect_timeout: 10,
        retry_limit: 3,
    };
    assert!(config.skip_verify);
    assert_eq!(config.timeout, 60);
    assert_eq!(config.connect_timeout, 10);
    assert_eq!(config.retry_limit, 3);
    assert_eq!(&config.proxy.url, "http://proxy.com");
    assert_eq!(&config.proxy.ping_url, "http://proxy.com/ping");
    assert!(config.proxy.fallback);
    assert_eq!(config.proxy.check_interval, 10);
}

#[test]
fn test_server_action() {
    assert_eq!(server_action(EXIT_TOKEN), Some(ServerAction::Exit));
    assert_eq!(server_action(usize::MAX), Some(ServerAction::Exit));
    assert_eq!(server_action(REQUEST_TOKEN), Some(ServerAction::ServeRequests));
    assert_eq!(server_action(1), Some(ServerAction::ServeRequests));
    assert_eq!(server_action(0), None);
    assert_eq!(server_action(2), None);
}
