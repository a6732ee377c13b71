use vestige::{read_routes, HttpMethod, ReadHandler, CONCURRENCY_LIMIT, DEFAULT_READ_API_PORT};

#[test]
fn read_routes_mount_each_handler_bare_and_under_api() {
    let routes = read_routes();
    assert_eq!(routes.len(), 10);
    for pair in routes.chunks(2) {
        assert_eq!(format!("/api{}", pair[0].0), pair[1].0);
        assert_eq!(pair[0].1, pair[1].1);
        assert_eq!(pair[0].2, pair[1].2);
    }
    assert!(routes.iter().all(|r| r.1 == HttpMethod::Get));
    assert!(routes.contains(&("/health", HttpMethod::Get, ReadHandler::HealthCheck)));
    assert!(routes.contains(&("/api/memories/{id}", HttpMethod::Get, ReadHandler::GetMemory)));
    assert!(routes.contains(&("/search", HttpMethod::Get, ReadHandler::SearchMemories)));
    assert!(routes.contains(&("/api/stats", HttpMethod::Get, ReadHandler::GetStats)));
    assert!(routes.contains(&("/memories", HttpMethod::Get, ReadHandler::ListMemories)));
}

#[test]
fn read_surface_settings() {
    assert_eq!(DEFAULT_READ_API_PORT, 3927);
    assert_eq!(CONCURRENCY_LIMIT, 50);
}
