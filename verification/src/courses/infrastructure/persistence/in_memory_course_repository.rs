use crate::courses::domain::course_repository::{
    course_views, is_stored, title_taken, CourseRepository, CourseRepositoryError,
};
use crate::courses::domain::{Course, CourseId, CourseView};
use crate::store::{is_snapshot, lists};
use std::collections::HashMap;
use vstd::prelude::*;
use vstd::std_specs::hash::spec_hash_map_iter;
use vstd::std_specs::iter::IteratorSpec;

verus! {

broadcast use vstd::std_specs::hash::group_hash_axioms;

/// A course repository that keeps its courses in the memory of the process.
pub struct InMemoryCourseRepository {
    courses: HashMap<u128, Course>,
}

impl InMemoryCourseRepository {
    /// Every course is stored under its own identifier.
    #[verifier::type_invariant]
    closed spec fn keyed_by_id(&self) -> bool {
        forall|key: u128|
            self.courses@.contains_key(key) ==> (#[trigger] self.courses@[key])@.id.0 == key
    }

    pub fn new() -> (repository: InMemoryCourseRepository)
        ensures
            repository.courses() == Map::<CourseId, CourseView>::empty(),
            repository.reliable(),
    {
        let repository = InMemoryCourseRepository { courses: HashMap::new() };
        proof {
            assert(repository.courses() =~= Map::<CourseId, CourseView>::empty());
        }
        repository
    }
}

impl CourseRepository for InMemoryCourseRepository {
    closed spec fn courses(&self) -> Map<CourseId, CourseView> {
        Map::new(
            |id: CourseId| self.courses@.contains_key(id.0),
            |id: CourseId| self.courses@[id.0]@,
        )
    }

    open spec fn reliable(&self) -> bool {
        true
    }

    fn save(&mut self, course: &Course) -> (saved: Result<(), CourseRepositoryError>) {
        proof {
            use_type_invariant(&*self);
        }
        let id = course.id();
        let mut courses: HashMap<u128, Course> = HashMap::new();
        std::mem::swap(&mut self.courses, &mut courses);
        courses.insert(id.0, course.clone());
        std::mem::swap(&mut self.courses, &mut courses);
        proof {
            assert(self.courses() =~= old(self).courses().insert(course@.id, course@));
        }
        Ok(())
    }

    fn find_by_id(&self, id: CourseId) -> (found: Result<Option<Course>, CourseRepositoryError>) {
        proof {
            use_type_invariant(self);
        }
        match self.courses.get(&id.0) {
            Some(course) => Ok(Some(course.clone())),
            None => Ok(None),
        }
    }

    fn find_all(&self) -> (found: Result<Vec<Course>, CourseRepositoryError>) {
        let mut courses: Vec<Course> = Vec::new();
        let ghost mut keys: Seq<CourseId> = Seq::empty();
        for entry in iter: self.courses.iter()
            invariant
                iter.seq() == spec_hash_map_iter(&self.courses).remaining(),
                iter.seq().no_duplicates(),
                keys.len() == iter.index(),
                courses@.len() == iter.index(),
                forall|i: int| 0 <= i < keys.len() ==> (#[trigger] keys[i]).0 == *iter.seq()[i].0,
                forall|i: int|
                    0 <= i < keys.len() ==> (#[trigger] courses@[i])@ == (*iter.seq()[i].1)@,
        {
            let (key, course) = entry;
            proof {
                keys = keys.push(CourseId(*key));
            }
            courses.push(course.clone());
        }
        proof {
            let entries = spec_hash_map_iter(&self.courses).remaining();
            let stored = self.courses@;
            assert forall|i: int, j: int|
                0 <= i < keys.len() && 0 <= j < keys.len() && i != j implies keys[i] != keys[j] by {
                if keys[i] == keys[j] {
                    assert(stored[*entries[i].0] == *entries[i].1);
                    assert(stored[*entries[j].0] == *entries[j].1);
                    assert(entries[i] == entries[j]);
                }
            }
            assert forall|key: CourseId|
                keys.contains(key) <==> self.courses().contains_key(key) by {
                if keys.contains(key) {
                    let i = choose|i: int| 0 <= i < keys.len() && keys[i] == key;
                    assert(stored.contains_key(*entries[i].0));
                }
                if self.courses().contains_key(key) {
                    assert(stored.contains_key(key.0));
                    assert(entries.contains((&key.0, &stored[key.0])));
                    let i = choose|i: int|
                        0 <= i < entries.len() && entries[i] == (&key.0, &stored[key.0]);
                    assert(keys[i].0 == key.0);
                }
            }
            assert forall|i: int| 0 <= i < keys.len() implies course_views(courses@)[i]
                == self.courses()[#[trigger] keys[i]] by {
                assert(stored.contains_key(*entries[i].0));
                assert(stored[*entries[i].0] == *entries[i].1);
                assert(courses@[i]@ == (*entries[i].1)@);
            }
            assert(lists(keys, course_views(courses@), self.courses()));
        }
        Ok(courses)
    }

    fn find_by_title(&self, title: &str) -> (found: Result<
        Option<Course>,
        CourseRepositoryError,
    >) {
        let wanted: String = title.to_owned();
        for entry in iter: self.courses.iter()
            invariant
                wanted@ == title@,
                iter.seq() == spec_hash_map_iter(&self.courses).remaining(),
                forall|i: int|
                    0 <= i < iter.index() ==> (*(#[trigger] iter.seq()[i]).1)@.title != title@,
        {
            let (key, course) = entry;
            if course.has_title(&wanted) {
                proof {
                    let id = CourseId(*key);
                    assert(self.courses@.contains_key(*key));
                    assert(self.courses().contains_key(id));
                    assert(self.courses()[id] == course@);
                }
                return Ok(Some(course.clone()));
            }
        }
        proof {
            let entries = spec_hash_map_iter(&self.courses).remaining();
            let stored = self.courses@;
            assert forall|id: CourseId| self.courses().contains_key(id) implies (
            #[trigger] self.courses()[id]).title != title@ by {
                assert(stored.contains_key(id.0));
                assert(entries.contains((&id.0, &stored[id.0])));
                let i = choose|i: int|
                    0 <= i < entries.len() && entries[i] == (&id.0, &stored[id.0]);
                assert((*entries[i].1)@.title != title@);
            }
        }
        Ok(None)
    }
}

} // verus!
