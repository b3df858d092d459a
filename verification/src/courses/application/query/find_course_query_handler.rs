use crate::courses::domain::course_repository::course_or_not_found;
use crate::courses::domain::{Course, CourseId, CourseRepository, CourseRepositoryError};
use vstd::prelude::*;

verus! {

/// The request for one course.
#[derive(Debug)]
pub struct FindCourseQuery {
    pub id: CourseId,
}

/// Finds one course in a repository.
pub struct FindCourseQueryHandler<C: CourseRepository> {
    repository: C,
}

impl<C: CourseRepository> FindCourseQueryHandler<C> {
    /// The repository that the handler reads.
    pub closed spec fn repository(&self) -> C {
        self.repository
    }

    pub fn new(repository: C) -> (handler: Self)
        ensures
            handler.repository() == repository,
    {
        Self { repository }
    }

    /// The course stored under the identifier. A course that is not stored
    /// is `NotFound`; only a failing store is `Unexpected`.
    pub fn handle(&self, query: FindCourseQuery) -> (found: Result<Course, CourseRepositoryError>)
        ensures
            found matches Ok(course) ==> {
                &&& self.repository().courses().contains_key(query.id)
                &&& course@ == self.repository().courses()[query.id]
                &&& course@.id == query.id
            },
            found matches Err(error) ==> {
                &&& error != CourseRepositoryError::DuplicateTitle
                &&& error == CourseRepositoryError::NotFound
                    ==> !self.repository().courses().contains_key(query.id)
                &&& error == CourseRepositoryError::Unexpected ==> !self.repository().reliable()
            },
            self.repository().reliable() ==> (found is Ok
                <==> self.repository().courses().contains_key(query.id)),
    {
        let lookup = self.repository.find_by_id(query.id);
        course_or_not_found(lookup)
    }
}

} // verus!
