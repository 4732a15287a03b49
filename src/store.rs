use vstd::prelude::*;
use crate::model::{CacheEntry, Link, LinkGroup};
use crate::response::BizCode;

verus! {

/// Why an operation of the content store failed.
#[derive(Debug, Clone, Copy, PartialEq, Eq, Structural)]
pub enum StoreError {
    /// No row for the id or unique key that was asked for.
    NotFound,
    /// A unique key (username, slug) or a reference between rows was violated.
    ConstraintViolation,
    /// The storage engine could not be reached or was busy past its timeout.
    StorageUnavailable,
}

/// How the storage engine reported a failed statement.
#[derive(Debug, Clone, Copy, PartialEq, Eq, Structural)]
pub enum DriverFault {
    RowNotFound,
    UniqueViolation,
    ForeignKeyViolation,
    NotNullViolation,
    CheckViolation,
    PoolTimedOut,
    PoolClosed,
    Io,
    Other,
}

/// The error kind that each engine failure surfaces as.
pub open spec fn fault_kind(f: DriverFault) -> StoreError {
    match f {
        DriverFault::RowNotFound => StoreError::NotFound,
        DriverFault::UniqueViolation => StoreError::ConstraintViolation,
        DriverFault::ForeignKeyViolation => StoreError::ConstraintViolation,
        DriverFault::NotNullViolation => StoreError::ConstraintViolation,
        DriverFault::CheckViolation => StoreError::ConstraintViolation,
        _ => StoreError::StorageUnavailable,
    }
}

/// The response outcome that each store error is reported with.
pub open spec fn error_biz_code(e: StoreError) -> BizCode {
    match e {
        StoreError::NotFound => BizCode::NotFound,
        StoreError::ConstraintViolation => BizCode::BadRequest,
        StoreError::StorageUnavailable => BizCode::ServerError,
    }
}

impl StoreError {
    pub fn from_fault(f: DriverFault) -> (r: StoreError)
        ensures
            r == fault_kind(f),
    {
        match f {
            DriverFault::RowNotFound => StoreError::NotFound,
            DriverFault::UniqueViolation => StoreError::ConstraintViolation,
            DriverFault::ForeignKeyViolation => StoreError::ConstraintViolation,
            DriverFault::NotNullViolation => StoreError::ConstraintViolation,
            DriverFault::CheckViolation => StoreError::ConstraintViolation,
            _ => StoreError::StorageUnavailable,
        }
    }

    pub fn biz_code(&self) -> (r: BizCode)
        ensures
            r == error_biz_code(*self),
    {
        match self {
            StoreError::NotFound => BizCode::NotFound,
            StoreError::ConstraintViolation => BizCode::BadRequest,
            StoreError::StorageUnavailable => BizCode::ServerError,
        }
    }
}

/// Outcome of an insert: the id of the new row, or why it was refused.
pub fn created(r: Result<i64, DriverFault>) -> (out: Result<i64, StoreError>)
    ensures
        match r {
            Ok(id) => out == Ok::<i64, StoreError>(id),
            Err(f) => out == Err::<i64, StoreError>(fault_kind(f)),
        },
{
    match r {
        Ok(id) => Ok(id),
        Err(f) => Err(StoreError::from_fault(f)),
    }
}

/// Outcome of an update or delete: whether a row was affected.
pub fn affected(r: Result<u64, DriverFault>) -> (out: Result<bool, StoreError>)
    ensures
        match r {
            Ok(n) => out == Ok::<bool, StoreError>(n > 0),
            Err(f) => out == Err::<bool, StoreError>(fault_kind(f)),
        },
{
    match r {
        Ok(n) => Ok(n > 0),
        Err(f) => Err(StoreError::from_fault(f)),
    }
}

/// Outcome of a read of one row, or of all matching rows.
pub fn fetched<T>(r: Result<T, DriverFault>) -> (out: Result<T, StoreError>)
    ensures
        match r {
            Ok(v) => out == Ok::<T, StoreError>(v),
            Err(f) => out == Err::<T, StoreError>(fault_kind(f)),
        },
{
    match r {
        Ok(v) => Ok(v),
        Err(f) => Err(StoreError::from_fault(f)),
    }
}

/// A cache lookup that degrades: whatever went wrong, the cache is absent.
pub open spec fn cache_or_absent(c: Result<Option<CacheEntry>, StoreError>) -> Option<CacheEntry> {
    match c {
        Ok(entry) => entry,
        Err(_) => None,
    }
}

/// A link together with the cache entry associated with it, if any.
#[derive(Debug)]
pub struct LinkDetail {
    pub link: Link,
    pub cache: Option<CacheEntry>,
}

/// A group, its links with their cache entries, and the group's own cache entry.
#[derive(Debug)]
pub struct GroupDetails {
    pub group: LinkGroup,
    pub links: Vec<LinkDetail>,
    pub cache: Option<CacheEntry>,
}

/// Assembles the composite read of a group from the reads of its parts.
///
/// The group and its link list must both have been read; a failure of either
/// fails the whole read, the group's first. A failed or empty cache lookup,
/// for the group or for a link, only leaves that cache absent.
pub fn group_with_details(
    group: Result<LinkGroup, StoreError>,
    links: Result<Vec<(Link, Result<Option<CacheEntry>, StoreError>)>, StoreError>,
    cache: Result<Option<CacheEntry>, StoreError>,
) -> (r: Result<GroupDetails, StoreError>)
    ensures
        group is Err ==> r == Err::<GroupDetails, StoreError>(group->Err_0),
        group is Ok && links is Err ==> r == Err::<GroupDetails, StoreError>(links->Err_0),
        group is Ok && links is Ok ==> {
            &&& r is Ok
            &&& r->Ok_0.group == group->Ok_0
            &&& r->Ok_0.cache == cache_or_absent(cache)
            &&& r->Ok_0.links@.len() == links->Ok_0@.len()
            &&& forall|i: int|
                0 <= i < links->Ok_0@.len() ==> {
                    &&& (#[trigger] r->Ok_0.links@[i]).link == links->Ok_0@[i].0
                    &&& r->Ok_0.links@[i].cache == cache_or_absent(links->Ok_0@[i].1)
                }
        },
{
    let group = match group {
        Ok(g) => g,
        Err(e) => return Err(e),
    };
    let links = match links {
        Ok(l) => l,
        Err(e) => return Err(e),
    };
    let ghost given = links@;
    let mut details: Vec<LinkDetail> = Vec::new();
    for item in it: links.into_iter()
        invariant
            it.seq() == given,
            details@.len() == it.index(),
            forall|i: int|
                0 <= i < it.index() ==> {
                    &&& (#[trigger] details@[i]).link == given[i].0
                    &&& details@[i].cache == cache_or_absent(given[i].1)
                },
    {
        let (link, link_cache) = item;
        let c = match link_cache {
            Ok(entry) => entry,
            Err(_) => None,
        };
        details.push(LinkDetail { link, cache: c });
    }
    let c = match cache {
        Ok(entry) => entry,
        Err(_) => None,
    };
    Ok(GroupDetails { group, links: details, cache: c })
}

} // verus!
