use crate::courses::domain::course_repository::course_or_not_found;
use crate::courses::domain::{Course, CourseId, CourseRepository, CourseRepositoryError};
use crate::pills::domain::pills_repository::pill_views;
use crate::pills::domain::{Pill, PillId, PillRepository, PillView, RepositoryError};
use vstd::prelude::*;

verus! {

/// A course together with those of its pills that are stored.
#[derive(Debug)]
pub struct CourseWithPills {
    pub course: Course,
    pub pills: Vec<Pill>,
}

/// The request for a course and its pills.
#[derive(Debug)]
pub struct FindCourseWithPillsQuery {
    pub id: CourseId,
}

/// The stored pills among those that a course refers to, in the order in
/// which the course refers to them.
pub open spec fn resolved_pills(pill_ids: Seq<PillId>, pills: Map<PillId, PillView>) -> Seq<
    PillView,
> {
    pill_ids.filter(|id: PillId| pills.contains_key(id)).map_values(|id: PillId| pills[id])
}

/// What the lookup of one referenced pill gives the join: the pill, nothing
/// where the pill is not stored, and `Unexpected` where the lookup failed in
/// any other way.
pub fn resolved_pill(lookup: Result<Option<Pill>, RepositoryError>) -> (resolved: Result<
    Option<Pill>,
    CourseRepositoryError,
>)
    ensures
        resolved == (match lookup {
            Ok(Some(pill)) => Ok::<Option<Pill>, CourseRepositoryError>(Some(pill)),
            Ok(None) => Ok(None),
            Err(RepositoryError::NotFound) => Ok(None),
            Err(RepositoryError::Unexpected) => Err(CourseRepositoryError::Unexpected),
        }),
{
    match lookup {
        Ok(Some(pill)) => Ok(Some(pill)),
        Ok(None) => Ok(None),
        Err(RepositoryError::NotFound) => Ok(None),
        Err(_) => Err(CourseRepositoryError::Unexpected),
    }
}

/// Joins a course with its pills, across the two repositories.
pub struct FindCourseWithPillsQueryHandler<C: CourseRepository, P: PillRepository> {
    course_repository: C,
    pill_repository: P,
}

impl<C: CourseRepository, P: PillRepository> FindCourseWithPillsQueryHandler<C, P> {
    /// The course repository that the handler reads.
    pub closed spec fn course_store(&self) -> C {
        self.course_repository
    }

    /// The pill repository that the handler reads.
    pub closed spec fn pill_store(&self) -> P {
        self.pill_repository
    }

    pub fn new(course_repository: C, pill_repository: P) -> (handler: Self)
        ensures
            handler.course_store() == course_repository,
            handler.pill_store() == pill_repository,
    {
        Self { course_repository, pill_repository }
    }

    /// The course stored under the identifier, with the stored pills among
    /// those it refers to, in the order in which it refers to them. A pill
    /// that is not stored is left out and is no error; a course that is not
    /// stored is `NotFound`; only a failing store is `Unexpected`.
    pub fn handle(&self, query: FindCourseWithPillsQuery) -> (found: Result<
        CourseWithPills,
        CourseRepositoryError,
    >)
        ensures
            found matches Ok(joined) ==> {
                &&& self.course_store().courses().contains_key(query.id)
                &&& joined.course@ == self.course_store().courses()[query.id]
                &&& joined.course@.id == query.id
                &&& pill_views(joined.pills@) == resolved_pills(
                    joined.course@.pill_ids,
                    self.pill_store().pills(),
                )
            },
            found matches Err(error) ==> {
                &&& error != CourseRepositoryError::DuplicateTitle
                &&& error == CourseRepositoryError::NotFound
                    ==> !self.course_store().courses().contains_key(query.id)
                &&& error == CourseRepositoryError::Unexpected ==> {
                    ||| !self.course_store().reliable()
                    ||| !self.pill_store().reliable()
                }
            },
            self.course_store().reliable() && self.pill_store().reliable() ==> (found is Ok
                <==> self.course_store().courses().contains_key(query.id)),
    {
        let lookup = self.course_repository.find_by_id(query.id);
        let course = match course_or_not_found(lookup) {
            Ok(course) => course,
            Err(error) => {
                return Err(error);
            },
        };
        let mut pills: Vec<Pill> = Vec::new();
        let pill_ids = course.pill_ids();
        let ghost stored = self.pill_repository.pills();
        let mut i: usize = 0;
        proof {
            reveal(Seq::filter);
            assert(pill_ids@.take(0) =~= Seq::<PillId>::empty());
            assert(pill_views(pills@) =~= resolved_pills(pill_ids@.take(0), stored));
        }
        while i < pill_ids.len()
            invariant
                i <= pill_ids.len(),
                stored == self.pill_repository.pills(),
                pill_views(pills@) == resolved_pills(pill_ids@.take(i as int), stored),
            decreases pill_ids.len() - i,
        {
            let pill_id = pill_ids[i];
            let ghost before = pills@;
            proof {
                reveal(Seq::filter);
                assert(pill_ids@.take(i + 1).drop_last() =~= pill_ids@.take(i as int));
                assert(pill_ids@.take(i + 1).last() == pill_id);
            }
            match resolved_pill(self.pill_repository.find_by_id(pill_id)) {
                Ok(Some(pill)) => {
                    pills.push(pill);
                    proof {
                        assert(pill_views(pills@) =~= pill_views(before).push(stored[pill_id]));
                        assert(pill_views(pills@) =~= resolved_pills(
                            pill_ids@.take(i + 1),
                            stored,
                        ));
                    }
                },
                Ok(None) => {
                    proof {
                        assert(pill_views(pills@) =~= resolved_pills(
                            pill_ids@.take(i + 1),
                            stored,
                        ));
                    }
                },
                Err(error) => {
                    return Err(error);
                },
            }
            i += 1;
        }
        proof {
            assert(pill_ids@.take(i as int) =~= pill_ids@);
        }
        Ok(CourseWithPills { course, pills })
    }
}

} // verus!
