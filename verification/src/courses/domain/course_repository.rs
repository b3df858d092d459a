use crate::courses::domain::course::{Course, CourseId, CourseView};
use crate::store::is_snapshot;
use vstd::prelude::*;

verus! {

/// Why an operation on courses failed.
#[derive(Clone, Copy, Debug, PartialEq, Eq, Structural)]
pub enum CourseRepositoryError {
    /// The store behind a repository failed.
    Unexpected,
    /// A course or a pill that had to be there is not.
    NotFound,
    /// Another course goes by the title already.
    DuplicateTitle,
}

impl CourseRepositoryError {
    /// The message that belongs to an error.
    pub open spec fn message(self) -> Seq<char> {
        match self {
            CourseRepositoryError::Unexpected => "An unexpected error occurred"@,
            CourseRepositoryError::NotFound => "Course not found"@,
            CourseRepositoryError::DuplicateTitle => "Course with this title already exists"@,
        }
    }

    /// The HTTP status code under which an error is reported.
    pub open spec fn status(self) -> u16 {
        match self {
            CourseRepositoryError::Unexpected => 500,
            CourseRepositoryError::NotFound => 404,
            CourseRepositoryError::DuplicateTitle => 409,
        }
    }

    pub fn status_code(&self) -> (code: u16)
        ensures
            code == self.status(),
    {
        match self {
            CourseRepositoryError::Unexpected => 500,
            CourseRepositoryError::NotFound => 404,
            CourseRepositoryError::DuplicateTitle => 409,
        }
    }

    pub fn to_string(&self) -> (text: String)
        ensures
            text@ == self.message(),
    {
        match self {
            CourseRepositoryError::Unexpected => "An unexpected error occurred".to_owned(),
            CourseRepositoryError::NotFound => "Course not found".to_owned(),
            CourseRepositoryError::DuplicateTitle => {
                "Course with this title already exists".to_owned()
            },
        }
    }
}

/// The views of a sequence of courses.
pub open spec fn course_views(courses: Seq<Course>) -> Seq<CourseView> {
    courses.map_values(|course: Course| course@)
}

/// Whether a course is among the stored ones.
pub open spec fn is_stored(courses: Map<CourseId, CourseView>, course: CourseView) -> bool {
    exists|id: CourseId| courses.contains_key(id) && #[trigger] courses[id] == course
}

/// Whether a stored course goes by the title.
pub open spec fn title_taken(courses: Map<CourseId, CourseView>, title: Seq<char>) -> bool {
    exists|id: CourseId| courses.contains_key(id) && (#[trigger] courses[id]).title == title
}

/// The course of a request, given what its lookup returned: the course,
/// `NotFound` where the lookup found none, and the lookup's own error where
/// it failed.
pub fn course_or_not_found(lookup: Result<Option<Course>, CourseRepositoryError>) -> (found:
    Result<Course, CourseRepositoryError>)
    ensures
        found == (match lookup {
            Ok(Some(course)) => Ok::<Course, CourseRepositoryError>(course),
            Ok(None) => Err(CourseRepositoryError::NotFound),
            Err(error) => Err(error),
        }),
{
    match lookup {
        Ok(Some(course)) => Ok(course),
        Ok(None) => Err(CourseRepositoryError::NotFound),
        Err(error) => Err(error),
    }
}

/// A store of courses, keyed by identifier.
///
/// Every operation either succeeds or fails with `Unexpected`; a failed
/// operation leaves the store as it was. A repository that is `reliable`
/// never fails.
pub trait CourseRepository {
    /// The stored courses. An implementation that does not say what it
    /// stores leaves this open.
    open spec fn courses(&self) -> Map<CourseId, CourseView> {
        arbitrary()
    }

    /// Whether the store behind the repository cannot fail. An implementation
    /// is not reliable unless it says so.
    open spec fn reliable(&self) -> bool {
        false
    }

    /// Stores a course under its identifier, in place of what was stored
    /// under that identifier before.
    fn save(&mut self, course: &Course) -> (saved: Result<(), CourseRepositoryError>)
        ensures
            final(self).reliable() == old(self).reliable(),
            old(self).reliable() ==> saved is Ok,
            saved is Ok ==> final(self).courses() == old(self).courses().insert(
                course@.id,
                course@,
            ),
            saved is Err ==> final(self).courses() == old(self).courses(),
            saved matches Err(error) ==> error == CourseRepositoryError::Unexpected,
    ;

    /// The course stored under an identifier, which is its own, or `None`
    /// where there is none.
    fn find_by_id(&self, id: CourseId) -> (found: Result<Option<Course>, CourseRepositoryError>)
        ensures
            self.reliable() ==> found is Ok,
            found matches Ok(Some(course)) ==> {
                &&& self.courses().contains_key(id)
                &&& course@ == self.courses()[id]
                &&& course@.id == id
            },
            found matches Ok(None) ==> !self.courses().contains_key(id),
            found matches Err(error) ==> error == CourseRepositoryError::Unexpected,
    ;

    /// Every stored course, in no particular order.
    fn find_all(&self) -> (found: Result<Vec<Course>, CourseRepositoryError>)
        ensures
            self.reliable() ==> found is Ok,
            found matches Ok(courses) ==> is_snapshot(course_views(courses@), self.courses()),
            found matches Err(error) ==> error == CourseRepositoryError::Unexpected,
    ;

    /// A stored course that goes by exactly this title, or `None` where no
    /// stored course does.
    fn find_by_title(&self, title: &str) -> (found: Result<
        Option<Course>,
        CourseRepositoryError,
    >)
        ensures
            self.reliable() ==> found is Ok,
            found matches Ok(Some(course)) ==> course@.title == title@ && is_stored(
                self.courses(),
                course@,
            ),
            found matches Ok(None) ==> !title_taken(self.courses(), title@),
            found matches Err(error) ==> error == CourseRepositoryError::Unexpected,
    ;
}

} // verus!
