use super::add_pill_to_course_command::AddPillToCourseCommand;
use crate::courses::domain::course::{CourseId, CourseView};
use crate::courses::domain::course_repository::{
    course_or_not_found, CourseRepository, CourseRepositoryError,
};
use crate::ordered_set::{lemma_append_if_absent_twice, occurrences};
use crate::pills::domain::PillId;
use crate::pills::domain::pills_repository::{PillRepository, RepositoryError};
use crate::pills::domain::Pill;
use vstd::prelude::*;

verus! {

/// Whether the pill of an association may be used, given what its lookup
/// returned: a pill that is not stored is `NotFound`, a lookup that failed is
/// `Unexpected`.
pub fn pill_is_known(lookup: &Result<Option<Pill>, RepositoryError>) -> (known: Result<
    (),
    CourseRepositoryError,
>)
    ensures
        known == (match lookup {
            Ok(Some(_)) => Ok::<(), CourseRepositoryError>(()),
            Ok(None) => Err(CourseRepositoryError::NotFound),
            Err(_) => Err(CourseRepositoryError::Unexpected),
        }),
{
    match lookup {
        Ok(Some(_)) => Ok(()),
        Ok(None) => Err(CourseRepositoryError::NotFound),
        Err(_) => Err(CourseRepositoryError::Unexpected),
    }
}

/// The courses after one of them has been made to refer to a pill.
pub open spec fn with_pill_added(
    courses: Map<CourseId, CourseView>,
    course_id: CourseId,
    pill_id: PillId,
) -> Map<CourseId, CourseView> {
    courses.insert(course_id, courses[course_id].with_pill(pill_id))
}

/// Adding a pill to a course twice leaves what adding it once leaves, and the
/// course then refers to the pill exactly once.
pub proof fn lemma_add_pill_twice(
    courses: Map<CourseId, CourseView>,
    course_id: CourseId,
    pill_id: PillId,
)
    requires
        courses.contains_key(course_id),
        courses[course_id].wf(),
    ensures
        with_pill_added(with_pill_added(courses, course_id, pill_id), course_id, pill_id)
            == with_pill_added(courses, course_id, pill_id),
        occurrences(with_pill_added(courses, course_id, pill_id)[course_id].pill_ids, pill_id)
            == 1,
{
    let once = with_pill_added(courses, course_id, pill_id);
    lemma_append_if_absent_twice(courses[course_id].pill_ids, pill_id);
    assert(once[course_id].with_pill(pill_id) == once[course_id]);
    assert(with_pill_added(once, course_id, pill_id) =~= once);
}

/// Lets courses refer to pills.
///
/// The two lookups and the save are separate operations on the
/// repositories. Where several handlers share one store, the later of two
/// saves of one course overwrites the earlier.
pub struct AddPillToCourseCommandHandler<C: CourseRepository, P: PillRepository> {
    course_repository: C,
    pill_repository: P,
}

impl<C: CourseRepository, P: PillRepository> AddPillToCourseCommandHandler<C, P> {
    /// The course repository that the handler works on.
    pub closed spec fn course_store(&self) -> C {
        self.course_repository
    }

    /// The pill repository that the handler reads.
    pub closed spec fn pill_store(&self) -> P {
        self.pill_repository
    }

    pub fn new(course_repository: C, pill_repository: P) -> (handler: Self)
        ensures
            handler.course_store() == course_repository,
            handler.pill_store() == pill_repository,
    {
        Self { course_repository, pill_repository }
    }

    pub fn course_repository(&self) -> (repository: &C)
        ensures
            *repository == self.course_store(),
    {
        &self.course_repository
    }

    pub fn pill_repository(&self) -> (repository: &P)
        ensures
            *repository == self.pill_store(),
    {
        &self.pill_repository
    }

    /// Appends the pill to the pills of the course, unless the course refers
    /// to it already, and stores the course. Both the pill and the course
    /// must be stored. The pill repository is left as it was.
    pub fn handle(&mut self, command: AddPillToCourseCommand) -> (added: Result<
        (),
        CourseRepositoryError,
    >)
        ensures
            final(self).pill_store() == old(self).pill_store(),
            final(self).course_store().reliable() == old(self).course_store().reliable(),
            added is Ok ==> {
                &&& old(self).pill_store().pills().contains_key(command.pill_id)
                &&& old(self).course_store().courses().contains_key(command.course_id)
                &&& old(self).course_store().courses()[command.course_id].wf()
                &&& final(self).course_store().courses() == with_pill_added(
                    old(self).course_store().courses(),
                    command.course_id,
                    command.pill_id,
                )
            },
            added matches Err(error) ==> {
                &&& final(self).course_store().courses() == old(self).course_store().courses()
                &&& error != CourseRepositoryError::DuplicateTitle
                &&& error == CourseRepositoryError::NotFound ==> {
                    ||| !old(self).pill_store().pills().contains_key(command.pill_id)
                    ||| !old(self).course_store().courses().contains_key(command.course_id)
                }
                &&& error == CourseRepositoryError::Unexpected ==> {
                    ||| !old(self).pill_store().reliable()
                    ||| !old(self).course_store().reliable()
                }
            },
            old(self).pill_store().reliable() && old(self).course_store().reliable() ==> (added is Ok <==> {
                &&& old(self).pill_store().pills().contains_key(command.pill_id)
                &&& old(self).course_store().courses().contains_key(command.course_id)
            }),
    {
        let pill_lookup = self.pill_repository.find_by_id(command.pill_id);
        match pill_is_known(&pill_lookup) {
            Ok(_) => {},
            Err(error) => {
                return Err(error);
            },
        }
        let course_lookup = self.course_repository.find_by_id(command.course_id);
        let mut course = match course_or_not_found(course_lookup) {
            Ok(course) => course,
            Err(error) => {
                return Err(error);
            },
        };
        course.add_pill(command.pill_id);
        self.course_repository.save(&course)
    }
}

} // verus!
