//! The read-only HTTP surface: which paths it mounts and what answers them.
//! Every route is a `GET` route, mounted both bare and under `/api/`.

use vstd::prelude::*;

verus! {

/// Concurrency ceiling for the read surface.
pub const CONCURRENCY_LIMIT: usize = 50;

/// Default port for the read API.
pub const DEFAULT_READ_API_PORT: u16 = 3927;

/// The HTTP methods the read surface answers: `GET` alone, so that any
/// other method on a mounted path is refused.
#[derive(Clone, Copy, Debug, PartialEq, Eq, Structural)]
pub enum HttpMethod {
    /// `GET`.
    Get,
}

/// The read handlers the surface serves, each answering `GET` only.
#[derive(Clone, Copy, Debug, PartialEq, Eq, Structural)]
pub enum ReadHandler {
    /// Readiness and memory count.
    HealthCheck,
    /// Paginated list of memories.
    ListMemories,
    /// A single memory by id.
    GetMemory,
    /// Semantic or hybrid search.
    SearchMemories,
    /// Store statistics.
    GetStats,
}

/// The bare routes of the read surface, in mounting order.
pub open spec fn bare_routes() -> Seq<(Seq<char>, HttpMethod, ReadHandler)> {
    seq![
        ("/health"@, HttpMethod::Get, ReadHandler::HealthCheck),
        ("/memories"@, HttpMethod::Get, ReadHandler::ListMemories),
        ("/memories/{id}"@, HttpMethod::Get, ReadHandler::GetMemory),
        ("/search"@, HttpMethod::Get, ReadHandler::SearchMemories),
        ("/stats"@, HttpMethod::Get, ReadHandler::GetStats),
    ]
}

/// The full route table: each bare route followed by its `/api` alias.
pub open spec fn read_route_table() -> Seq<(Seq<char>, HttpMethod, ReadHandler)> {
    Seq::new(
        2 * bare_routes().len(),
        |k: int|
            if k % 2 == 0 {
                bare_routes()[k / 2]
            } else {
                ("/api"@ + bare_routes()[k / 2].0, bare_routes()[k / 2].1, bare_routes()[k / 2].2)
            },
    )
}

/// The routes of the read surface with the method mounted and the handler
/// that answers each.
pub fn read_routes() -> (r: Vec<(&'static str, HttpMethod, ReadHandler)>)
    ensures
        r@.len() == read_route_table().len(),
        forall|k: int|
            0 <= k < r@.len() ==> (#[trigger] r@[k].0@, r@[k].1, r@[k].2) == read_route_table()[k],
{
    let r = vec![
        ("/health", HttpMethod::Get, ReadHandler::HealthCheck),
        ("/api/health", HttpMethod::Get, ReadHandler::HealthCheck),
        ("/memories", HttpMethod::Get, ReadHandler::ListMemories),
        ("/api/memories", HttpMethod::Get, ReadHandler::ListMemories),
        ("/memories/{id}", HttpMethod::Get, ReadHandler::GetMemory),
        ("/api/memories/{id}", HttpMethod::Get, ReadHandler::GetMemory),
        ("/search", HttpMethod::Get, ReadHandler::SearchMemories),
        ("/api/search", HttpMethod::Get, ReadHandler::SearchMemories),
        ("/stats", HttpMethod::Get, ReadHandler::GetStats),
        ("/api/stats", HttpMethod::Get, ReadHandler::GetStats),
    ];
    proof {
        reveal_strlit("/api");
        reveal_strlit("/health");
        reveal_strlit("/api/health");
        reveal_strlit("/memories");
        reveal_strlit("/api/memories");
        reveal_strlit("/memories/{id}");
        reveal_strlit("/api/memories/{id}");
        reveal_strlit("/search");
        reveal_strlit("/api/search");
        reveal_strlit("/stats");
        reveal_strlit("/api/stats");
        let t = read_route_table();
        assert(t[0] == (r@[0].0@, r@[0].1, r@[0].2));
        assert(t[1].0 =~= r@[1].0@);
        assert(t[2] == (r@[2].0@, r@[2].1, r@[2].2));
        assert(t[3].0 =~= r@[3].0@);
        assert(t[4] == (r@[4].0@, r@[4].1, r@[4].2));
        assert(t[5].0 =~= r@[5].0@);
        assert(t[6] == (r@[6].0@, r@[6].1, r@[6].2));
        assert(t[7].0 =~= r@[7].0@);
        assert(t[8] == (r@[8].0@, r@[8].1, r@[8].2));
        assert(t[9].0 =~= r@[9].0@);
    }
    r
}

/// Every handler is reachable both at its bare path and under `/api`.
pub proof fn lemma_every_route_has_api_alias(k: int)
    requires
        0 <= k < bare_routes().len(),
    ensures
        read_route_table()[2 * k] == bare_routes()[k],
        read_route_table()[2 * k + 1] == (
            "/api"@ + bare_routes()[k].0,
            bare_routes()[k].1,
            bare_routes()[k].2,
        ),
{
    assert((2 * k) % 2 == 0 && (2 * k) / 2 == k);
    assert((2 * k + 1) % 2 == 1 && (2 * k + 1) / 2 == k);
}

/// The surface is read-only: every mounted route answers `GET` alone.
pub proof fn lemma_routes_are_get_only(k: int)
    requires
        0 <= k < read_route_table().len(),
    ensures
        read_route_table()[k].1 == HttpMethod::Get,
{
    assert(k / 2 < 5);
}

} // verus!
