use crate::courses::domain::CourseId;
use crate::pills::domain::PillId;
use vstd::prelude::*;

verus! {

/// The request to let a course refer to a pill.
#[derive(Clone, Copy, Debug)]
pub struct AddPillToCourseCommand {
    pub course_id: CourseId,
    pub pill_id: PillId,
}

impl AddPillToCourseCommand {
    pub fn new(course_id: CourseId, pill_id: PillId) -> (command: Self)
        ensures
            command.course_id == course_id,
            command.pill_id == pill_id,
    {
        Self { course_id, pill_id }
    }
}

} // verus!
