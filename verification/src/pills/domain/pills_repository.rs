use crate::pills::domain::pill::{Pill, PillId, PillView};
use crate::store::is_snapshot;
use vstd::prelude::*;

verus! {

/// Why an operation on pills failed.
#[derive(Clone, Copy, Debug, PartialEq, Eq, Structural)]
pub enum RepositoryError {
    /// The store behind the repository failed.
    Unexpected,
    /// A pill that had to be there is not.
    NotFound,
}

impl RepositoryError {
    /// The message that belongs to an error.
    pub open spec fn message(self) -> Seq<char> {
        match self {
            RepositoryError::Unexpected => "An unexpected error occurred"@,
            RepositoryError::NotFound => "Pill not found"@,
        }
    }

    /// The HTTP status code under which an error is reported.
    pub open spec fn status(self) -> u16 {
        match self {
            RepositoryError::Unexpected => 500,
            RepositoryError::NotFound => 404,
        }
    }

    pub fn status_code(&self) -> (code: u16)
        ensures
            code == self.status(),
    {
        match self {
            RepositoryError::Unexpected => 500,
            RepositoryError::NotFound => 404,
        }
    }

    pub fn to_string(&self) -> (text: String)
        ensures
            text@ == self.message(),
    {
        match self {
            RepositoryError::Unexpected => "An unexpected error occurred".to_owned(),
            RepositoryError::NotFound => "Pill not found".to_owned(),
        }
    }
}

/// The views of a sequence of pills.
pub open spec fn pill_views(pills: Seq<Pill>) -> Seq<PillView> {
    pills.map_values(|pill: Pill| pill@)
}

/// A store of pills, keyed by identifier.
///
/// Every operation either succeeds or fails with `Unexpected`; a failed
/// operation leaves the store as it was. A repository that is `reliable`
/// never fails.
pub trait PillRepository {
    /// The stored pills. An implementation that does not say what it stores
    /// leaves this open.
    open spec fn pills(&self) -> Map<PillId, PillView> {
        arbitrary()
    }

    /// Whether the store behind the repository cannot fail. An implementation
    /// is not reliable unless it says so.
    open spec fn reliable(&self) -> bool {
        false
    }

    /// Stores a pill under its identifier, in place of what was stored under
    /// that identifier before.
    fn save(&mut self, pill: &Pill) -> (saved: Result<(), RepositoryError>)
        ensures
            final(self).reliable() == old(self).reliable(),
            old(self).reliable() ==> saved is Ok,
            saved is Ok ==> final(self).pills() == old(self).pills().insert(pill@.id, pill@),
            saved is Err ==> final(self).pills() == old(self).pills(),
            saved matches Err(error) ==> error == RepositoryError::Unexpected,
    ;

    /// The pill stored under an identifier, which is its own, or `None` where
    /// there is none.
    fn find_by_id(&self, id: PillId) -> (found: Result<Option<Pill>, RepositoryError>)
        ensures
            self.reliable() ==> found is Ok,
            found matches Ok(Some(pill)) ==> {
                &&& self.pills().contains_key(id)
                &&& pill@ == self.pills()[id]
                &&& pill@.id == id
            },
            found matches Ok(None) ==> !self.pills().contains_key(id),
            found matches Err(error) ==> error == RepositoryError::Unexpected,
    ;

    /// Every stored pill, in no particular order.
    fn find_all(&self) -> (found: Result<Vec<Pill>, RepositoryError>)
        ensures
            self.reliable() ==> found is Ok,
            found matches Ok(pills) ==> is_snapshot(pill_views(pills@), self.pills()),
            found matches Err(error) ==> error == RepositoryError::Unexpected,
    ;
}

} // verus!
