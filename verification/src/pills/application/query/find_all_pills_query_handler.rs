use crate::pills::domain::pills_repository::pill_views;
use crate::pills::domain::{Pill, PillRepository, RepositoryError};
use crate::store::is_snapshot;
use vstd::prelude::*;

verus! {

/// The request for every pill.
#[derive(Debug)]
pub struct FindAllPillsQuery;

/// Lists the pills of a repository.
pub struct FindAllPillsQueryHandler<R: PillRepository> {
    repository: R,
}

impl<R: PillRepository> FindAllPillsQueryHandler<R> {
    /// The repository that the handler reads.
    pub closed spec fn repository(&self) -> R {
        self.repository
    }

    pub fn new(repository: R) -> (handler: Self)
        ensures
            handler.repository() == repository,
    {
        Self { repository }
    }

    /// Every stored pill, once, in no particular order.
    pub fn handle(&self, _query: FindAllPillsQuery) -> (found: Result<Vec<Pill>, RepositoryError>)
        ensures
            self.repository().reliable() ==> found is Ok,
            found matches Ok(pills) ==> is_snapshot(pill_views(pills@), self.repository().pills()),
            found matches Err(error) ==> error == RepositoryError::Unexpected,
    {
        self.repository.find_all()
    }
}

} // verus!
