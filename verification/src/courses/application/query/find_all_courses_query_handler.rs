use crate::courses::domain::course_repository::course_views;
use crate::courses::domain::{Course, CourseRepository, CourseRepositoryError};
use crate::store::is_snapshot;
use vstd::prelude::*;

verus! {

/// The request for every course.
#[derive(Debug)]
pub struct FindAllCoursesQuery;

/// Lists the courses of a repository.
pub struct FindAllCoursesQueryHandler<C: CourseRepository> {
    repository: C,
}

impl<C: CourseRepository> FindAllCoursesQueryHandler<C> {
    /// The repository that the handler reads.
    pub closed spec fn repository(&self) -> C {
        self.repository
    }

    pub fn new(repository: C) -> (handler: Self)
        ensures
            handler.repository() == repository,
    {
        Self { repository }
    }

    /// Every stored course, once, in no particular order.
    pub fn handle(&self, _query: FindAllCoursesQuery) -> (found: Result<
        Vec<Course>,
        CourseRepositoryError,
    >)
        ensures
            self.repository().reliable() ==> found is Ok,
            found matches Ok(courses) ==> is_snapshot(
                course_views(courses@),
                self.repository().courses(),
            ),
            found matches Err(error) ==> error == CourseRepositoryError::Unexpected,
    {
        self.repository.find_all()
    }
}

} // verus!
