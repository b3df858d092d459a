use super::create_course_command::CreateCourseCommand;
use crate::courses::domain::course_repository::{
    title_taken, CourseRepository, CourseRepositoryError,
};
use crate::courses::domain::{Course, CourseId, CourseView};
use vstd::prelude::*;

verus! {

/// Whether a lookup by title has found a course. A lookup that failed has
/// found none.
pub fn title_is_taken(lookup: &Result<Option<Course>, CourseRepositoryError>) -> (taken: bool)
    ensures
        taken == (lookup matches Ok(Some(_))),
{
    match lookup {
        Ok(Some(_)) => true,
        _ => false,
    }
}

/// What the creation of a course returns, given what saving the course
/// returned.
pub fn course_created(id: CourseId, saved: Result<(), CourseRepositoryError>) -> (created: Result<
    CourseId,
    CourseRepositoryError,
>)
    ensures
        created == (match saved {
            Ok(_) => Ok::<CourseId, CourseRepositoryError>(id),
            Err(error) => Err(error),
        }),
{
    match saved {
        Ok(_) => Ok(id),
        Err(error) => Err(error),
    }
}

/// Once a course has been created under a title that was free, the title is
/// taken, so that a second creation under it is rejected as a duplicate and
/// changes nothing, and exactly one stored course goes by the title.
pub proof fn lemma_title_taken_once_created(
    courses: Map<CourseId, CourseView>,
    id: CourseId,
    course: CourseView,
)
    requires
        !title_taken(courses, course.title),
    ensures
        title_taken(courses.insert(id, course), course.title),
        forall|other: CourseId|
            courses.insert(id, course).contains_key(other) && (#[trigger] courses.insert(
                id,
                course,
            )[other]).title == course.title ==> other == id,
{
    let after = courses.insert(id, course);
    assert(after.contains_key(id) && after[id].title == course.title);
    assert forall|other: CourseId|
        after.contains_key(other) && (#[trigger] after[other]).title == course.title implies other
        == id by {
        if other != id {
            assert(courses.contains_key(other) && courses[other].title == course.title);
        }
    }
}

/// Creates courses in a repository, each under a title of its own.
///
/// The check of the title and the save are two operations on the
/// repository. Where several handlers share one store, two creations under
/// one title can both pass the check before either saves.
pub struct CreateCourseCommandHandler<C: CourseRepository> {
    course_repository: C,
}

impl<C: CourseRepository> CreateCourseCommandHandler<C> {
    /// The repository that the handler works on.
    pub closed spec fn repository(&self) -> C {
        self.course_repository
    }

    pub fn new(course_repository: C) -> (handler: Self)
        ensures
            handler.repository() == course_repository,
    {
        Self { course_repository }
    }

    pub fn course_repository(&self) -> (repository: &C)
        ensures
            *repository == self.repository(),
    {
        &self.course_repository
    }

    /// Stores the course that the command asks for under the given
    /// identifier, unless a stored course goes by its title already. The
    /// pills that the command names are not looked up.
    pub fn handle_with_id(&mut self, id: CourseId, command: CreateCourseCommand) -> (created:
        Result<CourseId, CourseRepositoryError>)
        ensures
            final(self).repository().reliable() == old(self).repository().reliable(),
            created matches Ok(course_id) ==> {
                &&& course_id == id
                &&& final(self).repository().courses() == old(self).repository().courses().insert(
                    id,
                    command.course(id),
                )
            },
            created matches Err(error) ==> {
                &&& final(self).repository().courses() == old(self).repository().courses()
                &&& error != CourseRepositoryError::NotFound
                &&& error == CourseRepositoryError::DuplicateTitle ==> title_taken(
                    old(self).repository().courses(),
                    command.title@,
                )
                &&& error == CourseRepositoryError::Unexpected ==> !old(
                    self,
                ).repository().reliable()
            },
            old(self).repository().reliable() ==> (created is Ok <==> !title_taken(
                old(self).repository().courses(),
                command.title@,
            )),
    {
        let lookup = self.course_repository.find_by_title(command.title.as_str());
        if title_is_taken(&lookup) {
            return Err(CourseRepositoryError::DuplicateTitle);
        }
        let course = Course::create(
            id,
            command.title,
            command.description,
            command.instructor,
            command.difficulty,
            command.hours,
            command.tags,
            command.price,
            command.pill_ids,
        );
        let saved = self.course_repository.save(&course);
        course_created(id, saved)
    }

    /// Stores the course that the command asks for under a fresh identifier
    /// and returns the identifier, unless a stored course goes by its title
    /// already.
    pub fn handle(&mut self, command: CreateCourseCommand) -> (created: Result<
        CourseId,
        CourseRepositoryError,
    >)
        ensures
            final(self).repository().reliable() == old(self).repository().reliable(),
            created matches Ok(course_id) ==> final(self).repository().courses() == old(
                self,
            ).repository().courses().insert(course_id, command.course(course_id)),
            created matches Err(error) ==> {
                &&& final(self).repository().courses() == old(self).repository().courses()
                &&& error != CourseRepositoryError::NotFound
                &&& error == CourseRepositoryError::DuplicateTitle ==> title_taken(
                    old(self).repository().courses(),
                    command.title@,
                )
                &&& error == CourseRepositoryError::Unexpected ==> !old(
                    self,
                ).repository().reliable()
            },
            old(self).repository().reliable() ==> (created is Ok <==> !title_taken(
                old(self).repository().courses(),
                command.title@,
            )),
    {
        let course_id = CourseId::new();
        self.handle_with_id(course_id, command)
    }
}

} // verus!
