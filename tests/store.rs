use isekai_links::{
    affected, created, fetched, group_with_details, BizCode, CacheEntry, DriverFault, Link,
    LinkGroup, StoreError,
};

fn group(id: i64, slug: &str) -> LinkGroup {
    LinkGroup {
        id,
        user_id: 1,
        name: "Test Group".to_string(),
        slug: slug.to_string(),
        key: Some("group-key".to_string()),
        description: Some("Test description".to_string()),
        is_public: true,
        cache_content: None,
        cache_refresh_interval: 3600,
        cache_updated_at: "2024-01-01 00:00:00".to_string(),
        created_at: "2024-01-01 00:00:00".to_string(),
    }
}

fn link(id: i64, group_id: i64, url: &str) -> Link {
    Link {
        id,
        group_id,
        type_: "url".to_string(),
        is_public: true,
        name: None,
        slug: None,
        description: None,
        content: url.to_string(),
        cache_content: None,
        cache_refresh_interval: 3600,
        cache_updated_at: "2024-01-01 00:00:00".to_string(),
        created_at: "2024-01-01 00:00:00".to_string(),
    }
}

fn cache(id: i64, content: &str) -> CacheEntry {
    CacheEntry {
        id,
        slug: None,
        content: content.to_string(),
        created_at: "2024-01-01 00:00:00".to_string(),
        updated_at: "2024-01-01 00:00:00".to_string(),
    }
}

#[test]
fn faults_map_to_error_kinds() {
    assert_eq!(StoreError::from_fault(DriverFault::RowNotFound), StoreError::NotFound);
    for f in [
        DriverFault::UniqueViolation,
        DriverFault::ForeignKeyViolation,
        DriverFault::NotNullViolation,
        DriverFault::CheckViolation,
    ] {
        assert_eq!(StoreError::from_fault(f), StoreError::ConstraintViolation);
    }
    for f in [DriverFault::PoolTimedOut, DriverFault::PoolClosed, DriverFault::Io, DriverFault::Other] {
        assert_eq!(StoreError::from_fault(f), StoreError::StorageUnavailable);
    }
}

#[test]
fn error_kinds_map_to_responses() {
    assert_eq!(StoreError::NotFound.biz_code().code(), BizCode::NotFound.code());
    assert_eq!(StoreError::ConstraintViolation.biz_code().code(), 400);
    assert_eq!(StoreError::StorageUnavailable.biz_code().code(), 500);
}

#[test]
fn insert_outcomes() {
    assert_eq!(created(Ok(5)), Ok(5));
    assert_eq!(created(Err(DriverFault::UniqueViolation)), Err(StoreError::ConstraintViolation));
    assert_eq!(created(Err(DriverFault::PoolTimedOut)), Err(StoreError::StorageUnavailable));
}

#[test]
fn update_outcomes() {
    assert_eq!(affected(Ok(1)), Ok(true));
    assert_eq!(affected(Ok(3)), Ok(true));
    assert_eq!(affected(Ok(0)), Ok(false));
    assert_eq!(affected(Err(DriverFault::ForeignKeyViolation)), Err(StoreError::ConstraintViolation));
}

#[test]
fn read_outcomes() {
    assert_eq!(fetched(Ok("row")), Ok("row"));
    assert_eq!(fetched::<u8>(Err(DriverFault::RowNotFound)), Err(StoreError::NotFound));
    assert_eq!(fetched::<u8>(Err(DriverFault::Io)), Err(StoreError::StorageUnavailable));
}

#[test]
fn details_without_cache_association() {
    let links = vec![(link(1, 7, "https://a"), Ok(None)), (link(2, 7, "https://b"), Ok(None))];
    let d = group_with_details(Ok(group(7, "g")), Ok(links), Ok(None)).expect("details");
    assert_eq!(d.group, group(7, "g"));
    assert_eq!(d.links.len(), 2);
    assert_eq!(d.links[0].link, link(1, 7, "https://a"));
    assert_eq!(d.links[1].link, link(2, 7, "https://b"));
    assert!(d.links.iter().all(|l| l.cache.is_none()));
    assert_eq!(d.cache, None);
}

#[test]
fn details_absorb_cache_failures() {
    let links = vec![
        (link(1, 7, "https://a"), Err(StoreError::NotFound)),
        (link(2, 7, "https://b"), Ok(Some(cache(4, "<b/>")))),
        (link(3, 7, "https://c"), Err(StoreError::StorageUnavailable)),
    ];
    let d = group_with_details(Ok(group(7, "g")), Ok(links), Err(StoreError::NotFound))
        .expect("details");
    assert_eq!(d.cache, None);
    assert_eq!(d.links.len(), 3);
    assert_eq!(d.links[0].cache, None);
    assert_eq!(d.links[1].cache, Some(cache(4, "<b/>")));
    assert_eq!(d.links[2].cache, None);
}

#[test]
fn details_with_group_cache() {
    let d = group_with_details(Ok(group(7, "g")), Ok(vec![]), Ok(Some(cache(9, "<feed/>"))))
        .expect("details");
    assert!(d.links.is_empty());
    assert_eq!(d.cache, Some(cache(9, "<feed/>")));
}

#[test]
fn details_fail_when_group_or_links_fail() {
    let r = group_with_details(Err(StoreError::NotFound), Ok(vec![]), Ok(Some(cache(1, "x"))));
    assert_eq!(r.err(), Some(StoreError::NotFound));
    let r = group_with_details(
        Err(StoreError::StorageUnavailable),
        Err(StoreError::NotFound),
        Ok(None),
    );
    assert_eq!(r.err(), Some(StoreError::StorageUnavailable));
    let r = group_with_details(Ok(group(7, "g")), Err(StoreError::StorageUnavailable), Ok(None));
    assert_eq!(r.err(), Some(StoreError::StorageUnavailable));
}
