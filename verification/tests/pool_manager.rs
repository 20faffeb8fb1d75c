use bakpiarun::pool_manager::{match_pattern, pool_socket_dir, PoolManager};

#[test]
fn pattern_forms() {
    assert!(match_pattern("/index.php", "/index.php"));
    assert!(match_pattern("/anything", "/*"));
    assert!(match_pattern("/heavy-db.php", "/heavy-*"));
    assert!(match_pattern("/api/users", "/api/*"));
    assert!(match_pattern("/x/index.php", "/*.php"));
    assert!(!match_pattern("/index.html", "/*.php"));
    assert!(!match_pattern("/apix", "/api"));
    assert!(match_pattern("/apix", "/api*"));
}

#[test]
fn routing_in_table_order_with_fallback() {
    let mut pm: PoolManager<u32> = PoolManager::empty();
    assert_eq!(pm.get_pool_name_for_path("/x"), None);
    pm.add_pool("web".to_string(), 1, vec!["/index.php".to_string()]);
    pm.add_pool("api".to_string(), 2, vec!["/api/*".to_string(), "/v2/*".to_string()]);
    assert_eq!(pm.get_pool_name_for_path("/api/users"), Some("api".to_string()));
    assert_eq!(pm.get_pool_name_for_path("/v2/x"), Some("api".to_string()));
    assert_eq!(pm.get_pool_name_for_path("/index.php"), Some("web".to_string()));
    assert_eq!(pm.get_pool_name_for_path("/other"), Some("web".to_string()));
    assert_eq!(pm.get_pool("api"), Some(&2));
    assert_eq!(pm.get_pool("none"), None);
}

#[test]
fn same_name_replaces_pool() {
    let mut pm: PoolManager<u32> = PoolManager::empty();
    pm.add_pool("a".to_string(), 1, vec![]);
    pm.add_pool("a".to_string(), 9, vec!["/*".to_string()]);
    assert_eq!(pm.pools.len(), 1);
    assert_eq!(pm.get_pool("a"), Some(&9));
    assert_eq!(pm.routing_table.len(), 2);
}

#[test]
fn pool_socket_directory() {
    assert_eq!(pool_socket_dir("/tmp/s", "api"), "/tmp/s/api");
}

#[test]
fn heavy_and_fast_pools() {
    let mut pm: PoolManager<u32> = PoolManager::empty();
    pm.add_pool(
        "heavy".to_string(),
        1,
        vec!["/heavy-*".to_string(), "/api/export/*".to_string()],
    );
    pm.add_pool("fast".to_string(), 2, vec!["/*".to_string()]);
    assert_eq!(pm.get_pool_name_for_path("/api/export/a.php"), Some("heavy".to_string()));
    assert_eq!(pm.get_pool_name_for_path("/heavy-report.php"), Some("heavy".to_string()));
    assert_eq!(pm.get_pool_name_for_path("/index.php"), Some("fast".to_string()));
}
