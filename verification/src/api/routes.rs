//! The routes of the HTTP server: which endpoint serves which path.

use vstd::prelude::*;
use vstd::string::*;

verus! {

/// The endpoints of the HTTP server.
#[derive(Clone, Copy, Debug, PartialEq, Eq, Structural)]
pub enum Endpoint {
    /// Global events of the daemon.
    Events,
    /// Stop the daemon.
    Exit,
    /// Start the daemon.
    Start,
    /// Send the fuse descriptor to a new daemon.
    SendFuseFd,
    /// Take the fuse descriptor over from an old daemon.
    TakeoverFuseFd,
    /// Mount, remount and umount filesystems.
    Mount,
    /// Metrics of the storage backend.
    MetricsBackend,
    /// Metrics of the blob cache.
    MetricsBlobcache,
    /// Information about the daemon, v1.
    Info,
    /// Information about the backend of a filesystem.
    FsBackendInfo,
    /// Global metrics of a filesystem.
    MetricsFsGlobal,
    /// Per-file metrics of a filesystem.
    MetricsFsFiles,
    /// Inflight requests of a filesystem.
    MetricsFsInflight,
    /// Access patterns of a filesystem.
    MetricsFsAccessPattern,
    /// Information about the daemon, v2.
    InfoV2,
    /// The blob objects of the cache manager, v2.
    BlobObjectListV2,
}

/// One route: a path and the endpoint that serves it.
pub struct Route {
    /// The path of the route.
    pub path: String,
    /// The endpoint of the route.
    pub endpoint: Endpoint,
}

/// The map from paths to endpoints that a list of routes stands for. A later
/// route replaces an earlier one with the same path.
pub open spec fn routes_map(routes: Seq<Route>) -> Map<Seq<char>, Endpoint>
    decreases routes.len(),
{
    if routes.len() == 0 {
        Map::empty()
    } else {
        routes_map(routes.drop_last()).insert(routes.last().path@, routes.last().endpoint)
    }
}

/// The table that routes HTTP requests to endpoints. Its view is the map from
/// paths to endpoints.
///
/// The routes are kept in a list and searched from the back. A hash map with
/// texts as keys would do the same work, but vstd models the keys of a hash
/// map for integers only, so nothing could be proved of its answers.
pub struct HttpRoutes {
    routes: Vec<Route>,
}

impl View for HttpRoutes {
    type V = Map<Seq<char>, Endpoint>;

    closed spec fn view(&self) -> Map<Seq<char>, Endpoint> {
        routes_map(self.routes@)
    }
}

/// The root of the paths of the API, version 1.
pub const HTTP_ROOT_V1: &'static str = "/api/v1";

/// The root of the paths of the API, version 2.
pub const HTTP_ROOT_V2: &'static str = "/api/v2";

/// The path of an endpoint of version 1 of the API.
pub fn endpoint_v1(path: &str) -> (r: String)
    ensures
        r@ == HTTP_ROOT_V1@ + path@,
{
    String::from_str(HTTP_ROOT_V1).concat(path)
}

/// The path of an endpoint of version 2 of the API.
pub fn endpoint_v2(path: &str) -> (r: String)
    ensures
        r@ == HTTP_ROOT_V2@ + path@,
{
    String::from_str(HTTP_ROOT_V2).concat(path)
}

impl HttpRoutes {
    /// A table without routes.
    pub fn new() -> (r: Self)
        ensures
            r@ == Map::<Seq<char>, Endpoint>::empty(),
    {
        HttpRoutes { routes: Vec::new() }
    }

    /// Route `path` to `endpoint`, in place of the endpoint that it had.
    pub fn insert(&mut self, path: String, endpoint: Endpoint)
        ensures
            final(self)@ == old(self)@.insert(path@, endpoint),
    {
        self.routes.push(Route { path, endpoint });
        assert(self.routes@.drop_last() == old(self).routes@);
    }

    /// The endpoint that serves `path`, if there is one.
    pub fn get(&self, path: &str) -> (r: Option<Endpoint>)
        ensures
            r == if self@.contains_key(path@) {
                Some(self@[path@])
            } else {
                None
            },
    {
        let key = path.to_owned();
        let mut n: usize = self.routes.len();
        assert(self.routes@.take(n as int) == self.routes@);
        while n > 0
            invariant
                n <= self.routes@.len(),
                key@ == path@,
                self@.contains_key(path@) == routes_map(self.routes@.take(n as int)).contains_key(
                    path@,
                ),
                self@.contains_key(path@) ==> self@[path@] == routes_map(
                    self.routes@.take(n as int),
                )[path@],
            decreases n,
        {
            proof {
                let head = self.routes@.take(n as int);
                assert(head.drop_last() == self.routes@.take(n - 1));
                assert(head.last() == self.routes@[n - 1]);
            }
            n -= 1;
            if self.routes[n].path == key {
                return Some(self.routes[n].endpoint);
            }
        }
        None
    }

    /// The routes of the daemon's HTTP server.
    pub open spec fn standard() -> Map<Seq<char>, Endpoint> {
        let v1 = HTTP_ROOT_V1@;
        let v2 = HTTP_ROOT_V2@;
        Map::<Seq<char>, Endpoint>::empty().insert(v1 + "/daemon/events"@, Endpoint::Events).insert(
            v1 + "/daemon/exit"@,
            Endpoint::Exit,
        ).insert(v1 + "/daemon/start"@, Endpoint::Start).insert(
            v1 + "/daemon/fuse/sendfd"@,
            Endpoint::SendFuseFd,
        ).insert(v1 + "/daemon/fuse/takeover"@, Endpoint::TakeoverFuseFd).insert(
            v1 + "/mount"@,
            Endpoint::Mount,
        ).insert(v1 + "/metrics/backend"@, Endpoint::MetricsBackend).insert(
            v1 + "/metrics/blobcache"@,
            Endpoint::MetricsBlobcache,
        ).insert(v1 + "/daemon"@, Endpoint::Info).insert(
            v1 + "/daemon/backend"@,
            Endpoint::FsBackendInfo,
        ).insert(v1 + "/metrics"@, Endpoint::MetricsFsGlobal).insert(
            v1 + "/metrics/files"@,
            Endpoint::MetricsFsFiles,
        ).insert(v1 + "/metrics/inflight"@, Endpoint::MetricsFsInflight).insert(
            v1 + "/metrics/pattern"@,
            Endpoint::MetricsFsAccessPattern,
        ).insert(v2 + "/daemon"@, Endpoint::InfoV2).insert(
            v2 + "/blobs"@,
            Endpoint::BlobObjectListV2,
        )
    }
}

/// The table of the routes of the daemon's HTTP server.
pub fn http_routes() -> (r: HttpRoutes)
    ensures
        r@ == HttpRoutes::standard(),
{
    let mut r = HttpRoutes::new();
    r.insert(endpoint_v1("/daemon/events"), Endpoint::Events);
    r.insert(endpoint_v1("/daemon/exit"), Endpoint::Exit);
    r.insert(endpoint_v1("/daemon/start"), Endpoint::Start);
    r.insert(endpoint_v1("/daemon/fuse/sendfd"), Endpoint::SendFuseFd);
    r.insert(endpoint_v1("/daemon/fuse/takeover"), Endpoint::TakeoverFuseFd);
    r.insert(endpoint_v1("/mount"), Endpoint::Mount);
    r.insert(endpoint_v1("/metrics/backend"), Endpoint::MetricsBackend);
    r.insert(endpoint_v1("/metrics/blobcache"), Endpoint::MetricsBlobcache);
    r.insert(endpoint_v1("/daemon"), Endpoint::Info);
    r.insert(endpoint_v1("/daemon/backend"), Endpoint::FsBackendInfo);
    r.insert(endpoint_v1("/metrics"), Endpoint::MetricsFsGlobal);
    r.insert(endpoint_v1("/metrics/files"), Endpoint::MetricsFsFiles);
    r.insert(endpoint_v1("/metrics/inflight"), Endpoint::MetricsFsInflight);
    r.insert(endpoint_v1("/metrics/pattern"), Endpoint::MetricsFsAccessPattern);
    r.insert(endpoint_v2("/daemon"), Endpoint::InfoV2);
    r.insert(endpoint_v2("/blobs"), Endpoint::BlobObjectListV2);
    r
}

} // verus!
