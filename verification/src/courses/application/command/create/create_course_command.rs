use crate::courses::domain::course::{texts, CourseId, CourseView, Difficulty, Price};
use crate::ordered_set::distinct;
use crate::pills::domain::PillId;
use vstd::prelude::*;

verus! {

/// The request to create a course.
#[derive(Debug)]
pub struct CreateCourseCommand {
    pub title: String,
    pub description: String,
    pub instructor: String,
    pub pill_ids: Vec<PillId>,
    pub difficulty: Difficulty,
    pub hours: i8,
    pub tags: Vec<String>,
    pub price: Price,
}

impl CreateCourseCommand {
    /// The course that the command asks for, under a given identifier.
    pub open spec fn course(self, id: CourseId) -> CourseView {
        CourseView {
            id,
            title: self.title@,
            description: self.description@,
            instructor: self.instructor@,
            pill_ids: distinct(self.pill_ids@),
            difficulty: self.difficulty,
            hours: self.hours,
            tags: distinct(texts(self.tags@)),
            price: self.price,
        }
    }

    pub fn with_pills(
        title: String,
        description: String,
        instructor: String,
        pill_ids: Vec<PillId>,
        difficulty: Difficulty,
        hours: i8,
        tags: Vec<String>,
        price: Price,
    ) -> (command: Self)
        ensures
            command == (CreateCourseCommand {
                title,
                description,
                instructor,
                pill_ids,
                difficulty,
                hours,
                tags,
                price,
            }),
    {
        Self { title, description, instructor, pill_ids, difficulty, hours, tags, price }
    }
}

} // verus!
