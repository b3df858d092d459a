use super::create_pill_command::CreatePillCommand;
use crate::pills::domain::pills_repository::{PillRepository, RepositoryError};
use crate::pills::domain::{Pill, PillId};
use vstd::prelude::*;

verus! {

/// What the creation of a pill returns, given what saving the pill returned.
pub fn pill_created(id: PillId, saved: Result<(), RepositoryError>) -> (created: Result<
    PillId,
    RepositoryError,
>)
    ensures
        created == (match saved {
            Ok(_) => Ok::<PillId, RepositoryError>(id),
            Err(error) => Err(error),
        }),
{
    match saved {
        Ok(_) => Ok(id),
        Err(error) => Err(error),
    }
}

/// Creates pills in a repository.
pub struct CreatePillCommandHandler<R: PillRepository> {
    pills_repository: R,
}

impl<R: PillRepository> CreatePillCommandHandler<R> {
    /// The repository that the handler works on.
    pub closed spec fn repository(&self) -> R {
        self.pills_repository
    }

    pub fn new(pills_repository: R) -> (handler: Self)
        ensures
            handler.repository() == pills_repository,
    {
        Self { pills_repository }
    }

    pub fn pills_repository(&self) -> (repository: &R)
        ensures
            *repository == self.repository(),
    {
        &self.pills_repository
    }

    /// Stores the pill that the command asks for under the given identifier.
    /// Two pills may share a title.
    pub fn handle_with_id(&mut self, id: PillId, command: CreatePillCommand) -> (created: Result<
        PillId,
        RepositoryError,
    >)
        ensures
            final(self).repository().reliable() == old(self).repository().reliable(),
            old(self).repository().reliable() ==> created is Ok,
            created matches Ok(pill_id) ==> {
                &&& pill_id == id
                &&& final(self).repository().pills() == old(self).repository().pills().insert(
                    id,
                    command.pill(id),
                )
            },
            created matches Err(error) ==> {
                &&& error == RepositoryError::Unexpected
                &&& final(self).repository().pills() == old(self).repository().pills()
            },
    {
        let pill = Pill::create(id, command.title, command.content);
        let saved = self.pills_repository.save(&pill);
        pill_created(id, saved)
    }

    /// Stores the pill that the command asks for under a fresh identifier, and
    /// returns the identifier.
    pub fn handle(&mut self, command: CreatePillCommand) -> (created: Result<
        PillId,
        RepositoryError,
    >)
        ensures
            final(self).repository().reliable() == old(self).repository().reliable(),
            old(self).repository().reliable() ==> created is Ok,
            created matches Ok(pill_id) ==> final(self).repository().pills() == old(
                self,
            ).repository().pills().insert(pill_id, command.pill(pill_id)),
            created matches Err(error) ==> {
                &&& error == RepositoryError::Unexpected
                &&& final(self).repository().pills() == old(self).repository().pills()
            },
    {
        let pill_id = PillId::new();
        self.handle_with_id(pill_id, command)
    }
}

} // verus!
