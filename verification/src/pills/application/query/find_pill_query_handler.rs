use crate::pills::domain::{Pill, PillId, PillRepository, RepositoryError};
use vstd::prelude::*;

verus! {

/// The request for one pill.
#[derive(Debug)]
pub struct FindPillQuery {
    pub id: PillId,
}

/// What the query for a pill returns, given what the lookup returned: the
/// pill, `NotFound` where the lookup found none, and the lookup's own error
/// where it failed.
pub fn pill_or_not_found(lookup: Result<Option<Pill>, RepositoryError>) -> (found: Result<
    Pill,
    RepositoryError,
>)
    ensures
        found == (match lookup {
            Ok(Some(pill)) => Ok::<Pill, RepositoryError>(pill),
            Ok(None) => Err(RepositoryError::NotFound),
            Err(error) => Err(error),
        }),
{
    match lookup {
        Ok(Some(pill)) => Ok(pill),
        Ok(None) => Err(RepositoryError::NotFound),
        Err(error) => Err(error),
    }
}

/// Finds one pill in a repository.
pub struct FindPillQueryHandler<R: PillRepository> {
    repository: R,
}

impl<R: PillRepository> FindPillQueryHandler<R> {
    /// The repository that the handler reads.
    pub closed spec fn repository(&self) -> R {
        self.repository
    }

    pub fn new(repository: R) -> (handler: Self)
        ensures
            handler.repository() == repository,
    {
        Self { repository }
    }

    /// The pill stored under the identifier. A pill that is not stored is
    /// `NotFound`; only a failing store is `Unexpected`.
    pub fn handle(&self, query: FindPillQuery) -> (found: Result<Pill, RepositoryError>)
        ensures
            found matches Ok(pill) ==> {
                &&& self.repository().pills().contains_key(query.id)
                &&& pill@ == self.repository().pills()[query.id]
                &&& pill@.id == query.id
            },
            found matches Err(error) ==> {
                &&& error == RepositoryError::NotFound ==> !self.repository().pills().contains_key(
                    query.id,
                )
                &&& error == RepositoryError::Unexpected ==> !self.repository().reliable()
            },
            self.repository().reliable() ==> (found is Ok
                <==> self.repository().pills().contains_key(query.id)),
    {
        let lookup = self.repository.find_by_id(query.id);
        pill_or_not_found(lookup)
    }
}

} // verus!
