use torrentino_core::catalog::{
    catalog_key, default_limit, like_pattern, CatalogError, CatalogSearchQuery, SearchMode,
};

#[test]
fn test_search_mode_default() {
    let mode = SearchMode::default();
    assert_eq!(mode, SearchMode::Both);
}

#[test]
fn test_catalog_search_query_default_limit() {
    let query = CatalogSearchQuery::new("test".to_string());
    assert_eq!(query.query, "test");
    assert_eq!(query.limit, 100);
    assert_eq!(default_limit(), 100);
}

#[test]
fn catalog_keys_are_lower_case() {
    assert_eq!(catalog_key("ABC123def"), Some("abc123def".to_string()));
    assert_eq!(catalog_key(""), None);
}

#[test]
fn search_pattern_matches_anywhere() {
    let q = CatalogSearchQuery { query: "Dark Side".to_string(), limit: 3 };
    assert_eq!(like_pattern(&q), "%Dark Side%");
}

#[test]
fn catalog_error_messages() {
    assert_eq!(CatalogError::NotFound("abc".to_string()).message(), "Not found: abc");
    assert_eq!(CatalogError::Database("locked".to_string()).message(), "Database error: locked");
    assert_eq!(CatalogError::Internal("x".to_string()).message(), "Internal error: x");
}
