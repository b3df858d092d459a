//! The record under which a document store keeps a course, and the way from
//! courses to records and back.

use crate::courses::domain::course::{
    copy_texts, texts, Course, CourseId, CourseView, Difficulty, Price,
};
use crate::courses::domain::course_repository::{course_views, title_taken};
use crate::courses::domain::CourseRepositoryError;
use crate::ordered_set::{distinct, lemma_distinct_of_distinct};
use crate::pills::domain::PillId;
use crate::store::{is_snapshot, lists};
use vstd::prelude::*;

verus! {

/// A course as a document store keeps it: the identifiers as text, the
/// course's own being the one under which the document is filed.
#[derive(Debug)]
pub struct CourseDocument {
    pub id: String,
    pub title: String,
    pub description: String,
    pub instructor: String,
    pub difficulty: Difficulty,
    pub hours: i8,
    pub tags: Vec<String>,
    pub price: Price,
    pub pill_ids: Vec<String>,
}

/// What a course document holds, as mathematical values.
pub ghost struct CourseDocumentView {
    pub id: Seq<char>,
    pub title: Seq<char>,
    pub description: Seq<char>,
    pub instructor: Seq<char>,
    pub difficulty: Difficulty,
    pub hours: i8,
    pub tags: Seq<Seq<char>>,
    pub price: Price,
    pub pill_ids: Seq<Seq<char>>,
}

impl View for CourseDocument {
    type V = CourseDocumentView;

    open spec fn view(&self) -> CourseDocumentView {
        CourseDocumentView {
            id: self.id@,
            title: self.title@,
            description: self.description@,
            instructor: self.instructor@,
            difficulty: self.difficulty,
            hours: self.hours,
            tags: texts(self.tags@),
            price: self.price,
            pill_ids: texts(self.pill_ids@),
        }
    }
}

/// The texts of a sequence of pill identifiers.
pub open spec fn pill_id_texts(pill_ids: Seq<PillId>) -> Seq<Seq<char>> {
    pill_ids.map_values(|id: PillId| id.text())
}

/// The pill identifiers that a sequence of texts stands for, if every one of
/// them stands for one.
pub open spec fn pill_ids_of(pill_ids: Seq<Seq<char>>) -> Option<Seq<PillId>> {
    if forall|i: int| 0 <= i < pill_ids.len() ==> PillId::parsed(#[trigger] pill_ids[i]) is Some {
        Some(pill_ids.map_values(|text: Seq<char>| PillId::parsed(text).unwrap()))
    } else {
        None
    }
}

/// The document that stands for a course.
pub open spec fn document_of(course: CourseView) -> CourseDocumentView {
    CourseDocumentView {
        id: course.id.text(),
        title: course.title,
        description: course.description,
        instructor: course.instructor,
        difficulty: course.difficulty,
        hours: course.hours,
        tags: course.tags,
        price: course.price,
        pill_ids: pill_id_texts(course.pill_ids),
    }
}

/// The course that a document stands for. A document with a text, as its
/// identifier or among its pills, that is no identifier's text stands for
/// none.
pub open spec fn course_of(document: CourseDocumentView) -> Option<CourseView> {
    match (CourseId::parsed(document.id), pill_ids_of(document.pill_ids)) {
        (Some(id), Some(pill_ids)) => Some(
            CourseView {
                id,
                title: document.title,
                description: document.description,
                instructor: document.instructor,
                pill_ids: distinct(pill_ids),
                difficulty: document.difficulty,
                hours: document.hours,
                tags: distinct(document.tags),
                price: document.price,
            },
        ),
        _ => None,
    }
}

/// Whether every document of a store stands for a course and is filed under
/// its own identifier, and that identifier is the canonical text of the
/// identifier it stands for.
pub open spec fn well_filed(documents: Map<Seq<char>, CourseDocumentView>) -> bool {
    forall|key: Seq<char>| #[trigger]
        documents.contains_key(key) ==> {
            &&& documents[key].id == key
            &&& CourseId::parsed(key) matches Some(id) && id.text() == key
            &&& course_of(documents[key]) is Some
        }
}

/// The courses that a store of documents stands for: under each identifier
/// the course of the document that is filed under the identifier's text.
pub open spec fn courses_of(documents: Map<Seq<char>, CourseDocumentView>) -> Map<
    CourseId,
    CourseView,
> {
    Map::new(
        |id: CourseId|
            documents.contains_key(id.text()) && CourseId::parsed(id.text()) == Some(id),
        |id: CourseId| course_of(documents[id.text()]).unwrap(),
    )
}

/// The views of a sequence of documents.
pub open spec fn document_views(documents: Seq<CourseDocument>) -> Seq<CourseDocumentView> {
    documents.map_values(|document: CourseDocument| document@)
}

/// Filing the document of a course under the course's key is saving the
/// course: the store stays well filed, and the courses that it stands for
/// are those it stood for before, with the course in place of what was
/// stored under its identifier.
pub proof fn lemma_filing_is_saving(
    documents: Map<Seq<char>, CourseDocumentView>,
    course: CourseView,
)
    requires
        well_filed(documents),
        CourseId::parsed(course.id.text()) == Some(course.id),
        course_of(document_of(course)) == Some(course),
    ensures
        well_filed(documents.insert(course.id.text(), document_of(course))),
        courses_of(documents.insert(course.id.text(), document_of(course))) == courses_of(
            documents,
        ).insert(course.id, course),
{
    let key = course.id.text();
    let after = documents.insert(key, document_of(course));
    assert forall|other: Seq<char>| #[trigger] after.contains_key(other) implies {
        &&& after[other].id == other
        &&& CourseId::parsed(other) matches Some(id) && id.text() == other
        &&& course_of(after[other]) is Some
    } by {
        if other != key {
            assert(documents.contains_key(other));
        }
    }
    assert(courses_of(after) =~= courses_of(documents).insert(course.id, course));
}

/// Looking a course up under its key is looking it up in the courses that
/// the store stands for.
pub proof fn lemma_lookup_by_key(documents: Map<Seq<char>, CourseDocumentView>, id: CourseId)
    requires
        well_filed(documents),
        CourseId::parsed(id.text()) == Some(id),
    ensures
        documents.contains_key(id.text()) <==> courses_of(documents).contains_key(id),
        documents.contains_key(id.text()) ==> course_of(documents[id.text()]) == Some(
            courses_of(documents)[id],
        ),
{
}

/// A document of a well-filed store bears a title exactly if a course that
/// the store stands for goes by it: looking for a document by its title is
/// looking for a course by its title.
pub proof fn lemma_lookup_by_title(documents: Map<Seq<char>, CourseDocumentView>, title: Seq<char>)
    requires
        well_filed(documents),
    ensures
        title_taken(courses_of(documents), title) <==> exists|key: Seq<char>|
            documents.contains_key(key) && (#[trigger] documents[key]).title == title,
{
    if title_taken(courses_of(documents), title) {
        let id = choose|id: CourseId|
            courses_of(documents).contains_key(id) && (#[trigger] courses_of(documents)[id]).title
                == title;
        assert(documents.contains_key(id.text()) && documents[id.text()].title == title);
    }
    if exists|key: Seq<char>|
        documents.contains_key(key) && (#[trigger] documents[key]).title == title {
        let key = choose|key: Seq<char>|
            documents.contains_key(key) && (#[trigger] documents[key]).title == title;
        let id = CourseId::parsed(key).unwrap();
        assert(courses_of(documents).contains_key(id) && courses_of(documents)[id].title == title);
    }
}

/// Reading every document of a well-filed store gives every course that the
/// store stands for, once.
pub proof fn lemma_listing_is_snapshot(
    store: Map<Seq<char>, CourseDocumentView>,
    keys: Seq<Seq<char>>,
    documents: Seq<CourseDocumentView>,
    courses: Seq<CourseView>,
)
    requires
        well_filed(store),
        lists(keys, documents, store),
        courses.len() == documents.len(),
        forall|i: int|
            0 <= i < courses.len() ==> course_of(documents[i]) == Some(#[trigger] courses[i]),
    ensures
        is_snapshot(courses, courses_of(store)),
{
    let ids = keys.map_values(|key: Seq<char>| CourseId::parsed(key).unwrap());
    assert forall|i: int| 0 <= i < keys.len() implies {
        &&& store.contains_key(#[trigger] keys[i])
        &&& ids[i].text() == keys[i]
        &&& CourseId::parsed(keys[i]) == Some(ids[i])
        &&& documents[i] == store[keys[i]]
    } by {
        assert(keys.contains(keys[i]));
    }
    assert forall|i: int, j: int| 0 <= i < ids.len() && 0 <= j < ids.len() && i != j implies ids[i]
        != ids[j] by {
        assert(ids[i].text() == keys[i] && ids[j].text() == keys[j]);
    }
    assert forall|id: CourseId| ids.contains(id) <==> courses_of(store).contains_key(id) by {
        if ids.contains(id) {
            let i = choose|i: int| 0 <= i < ids.len() && ids[i] == id;
            assert(store.contains_key(keys[i]));
        }
        if courses_of(store).contains_key(id) {
            assert(keys.contains(id.text()));
            let i = choose|i: int| 0 <= i < keys.len() && keys[i] == id.text();
            assert(ids[i] == id);
        }
    }
    assert forall|i: int| 0 <= i < ids.len() implies courses[i] == courses_of(store)[
    #[trigger] ids[i]] by {
        assert(store.contains_key(keys[i]));
        assert(course_of(documents[i]) == Some(courses[i]));
    }
    assert(lists(ids, courses, courses_of(store)));
}

/// Whether every document of a sequence stands for a course.
pub open spec fn all_readable(documents: Seq<CourseDocument>) -> bool {
    forall|i: int| 0 <= i < documents.len() ==> course_of(#[trigger] documents[i]@) is Some
}

/// The text under which the document of a course is filed. In a well-filed
/// store, a document is filed under it exactly if the store stands for a
/// course with the identifier, and that document stands for that course.
pub fn document_key(id: CourseId) -> (key: String)
    ensures
        key@ == id.text(),
        CourseId::parsed(key@) == Some(id),
        forall|documents: Map<Seq<char>, CourseDocumentView>| #[trigger]
            well_filed(documents) ==> {
                &&& documents.contains_key(key@) <==> courses_of(documents).contains_key(id)
                &&& documents.contains_key(key@) ==> course_of(documents[key@]) == Some(
                    courses_of(documents)[id],
                )
            },
{
    let key = id.to_string();
    proof {
        assert forall|documents: Map<Seq<char>, CourseDocumentView>| #[trigger]
            well_filed(documents) implies {
            &&& documents.contains_key(key@) <==> courses_of(documents).contains_key(id)
            &&& documents.contains_key(key@) ==> course_of(documents[key@]) == Some(
                courses_of(documents)[id],
            )
        } by {
            lemma_lookup_by_key(documents, id);
        }
    }
    key
}

/// The texts of pill identifiers, each of which reads back as the identifier.
fn pill_ids_to_texts(pill_ids: &[PillId]) -> (written: Vec<String>)
    ensures
        texts(written@) == pill_id_texts(pill_ids@),
        pill_ids_of(texts(written@)) == Some(pill_ids@),
{
    let mut written: Vec<String> = Vec::new();
    let mut i: usize = 0;
    while i < pill_ids.len()
        invariant
            i <= pill_ids.len(),
            written@.len() == i,
            forall|j: int| 0 <= j < i ==> (#[trigger] written@[j])@ == pill_ids@[j].text(),
            forall|j: int|
                0 <= j < i ==> PillId::parsed((#[trigger] written@[j])@) == Some(pill_ids@[j]),
        decreases pill_ids.len() - i,
    {
        written.push(pill_ids[i].to_string());
        i += 1;
    }
    proof {
        assert(texts(written@) =~= pill_id_texts(pill_ids@));
        let read = texts(written@);
        assert forall|j: int| 0 <= j < read.len() implies PillId::parsed(#[trigger] read[j])
            == Some(pill_ids@[j]) by {
            assert(read[j] == written@[j]@);
        }
        assert(read.map_values(|text: Seq<char>| PillId::parsed(text).unwrap()) =~= pill_ids@);
    }
    written
}

/// The pill identifiers that a list of texts stands for. Fails at the first
/// text that is no identifier's text.
fn pill_ids_from_texts(written: &Vec<String>) -> (read: Result<Vec<PillId>, uuid::Error>)
    ensures
        read is Ok <==> pill_ids_of(texts(written@)) is Some,
        read matches Ok(pill_ids) ==> pill_ids_of(texts(written@)) == Some(pill_ids@),
{
    let mut pill_ids: Vec<PillId> = Vec::new();
    let mut i: usize = 0;
    while i < written.len()
        invariant
            i <= written.len(),
            pill_ids@.len() == i,
            forall|j: int|
                0 <= j < i ==> PillId::parsed(#[trigger] texts(written@)[j]) == Some(pill_ids@[j]),
        decreases written.len() - i,
    {
        match PillId::from_str(written[i].as_str()) {
            Ok(id) => {
                pill_ids.push(id);
            },
            Err(error) => {
                proof {
                    assert(PillId::parsed(texts(written@)[i as int]) is None);
                }
                return Err(error);
            },
        }
        i += 1;
    }
    proof {
        assert(texts(written@).map_values(|text: Seq<char>| PillId::parsed(text).unwrap())
            =~= pill_ids@);
    }
    Ok(pill_ids)
}

impl CourseDocument {
    /// The document that stands for a course. Reading it gives the course
    /// back, and filing it under its identifier in a well-filed store is
    /// saving the course.
    pub fn from(course: &Course) -> (document: CourseDocument)
        ensures
            document@ == document_of(course@),
            course_of(document@) == Some(course@),
            forall|documents: Map<Seq<char>, CourseDocumentView>| #[trigger]
                well_filed(documents) ==> {
                    &&& well_filed(documents.insert(document@.id, document@))
                    &&& courses_of(documents.insert(document@.id, document@)) == courses_of(
                        documents,
                    ).insert(course@.id, course@)
                },
    {
        let pill_ids = pill_ids_to_texts(course.pill_ids());
        let tags = copy_texts(course.tags());
        proof {
            lemma_distinct_of_distinct(course@.pill_ids);
            lemma_distinct_of_distinct(course@.tags);
        }
        let document = CourseDocument {
            id: course.id().to_string(),
            title: course.title().to_owned(),
            description: course.description().to_owned(),
            instructor: course.instructor().to_owned(),
            difficulty: course.difficulty(),
            hours: course.hours(),
            tags,
            price: course.price(),
            pill_ids,
        };
        proof {
            assert forall|documents: Map<Seq<char>, CourseDocumentView>| #[trigger]
                well_filed(documents) implies {
                &&& well_filed(documents.insert(document@.id, document@))
                &&& courses_of(documents.insert(document@.id, document@)) == courses_of(
                    documents,
                ).insert(course@.id, course@)
            } by {
                lemma_filing_is_saving(documents, course@);
            }
        }
        document
    }
}

impl Course {
    /// The course that a document stands for. Fails where a text of the
    /// document, its identifier or one among its pills, is no identifier's
    /// text.
    pub fn try_from(document: CourseDocument) -> (read: Result<Course, uuid::Error>)
        ensures
            read is Ok <==> course_of(document@) is Some,
            read matches Ok(course) ==> course_of(document@) == Some(course@),
    {
        let id = match CourseId::from_str(document.id.as_str()) {
            Ok(id) => id,
            Err(error) => {
                return Err(error);
            },
        };
        let pill_ids = match pill_ids_from_texts(&document.pill_ids) {
            Ok(pill_ids) => pill_ids,
            Err(error) => {
                return Err(error);
            },
        };
        Ok(
            Course::create(
                id,
                document.title,
                document.description,
                document.instructor,
                document.difficulty,
                document.hours,
                document.tags,
                document.price,
                pill_ids,
            ),
        )
    }
}

/// What a lookup returns, given the document that the store found: the
/// course that the document stands for, nothing where the store found
/// nothing, and `Unexpected` where the document stands for no course.
pub fn course_from_lookup(found: Option<CourseDocument>) -> (read: Result<
    Option<Course>,
    CourseRepositoryError,
>)
    ensures
        found is None ==> read == Ok::<Option<Course>, CourseRepositoryError>(None),
        found matches Some(document) ==> match course_of(document@) {
            Some(view) => read matches Ok(Some(course)) && course@ == view,
            None => read == Err::<Option<Course>, CourseRepositoryError>(
                CourseRepositoryError::Unexpected,
            ),
        },
{
    match found {
        None => Ok(None),
        Some(document) => match Course::try_from(document) {
            Ok(course) => Ok(Some(course)),
            Err(_) => Err(CourseRepositoryError::Unexpected),
        },
    }
}

/// The courses that the documents of a store stand for, in the order of the
/// documents. One document that stands for no course fails the whole reading
/// with `Unexpected`. Where the documents are all those of a well-filed
/// store, the courses are all those that the store stands for.
pub fn courses_from_documents(documents: Vec<CourseDocument>) -> (read: Result<
    Vec<Course>,
    CourseRepositoryError,
>)
    ensures
        read is Ok <==> all_readable(documents@),
        read matches Ok(courses) ==> {
            &&& courses@.len() == documents@.len()
            &&& forall|i: int|
                0 <= i < courses@.len() ==> course_of(documents@[i]@) == Some(
                    #[trigger] courses@[i]@,
                )
            &&& forall|store: Map<Seq<char>, CourseDocumentView>, keys: Seq<Seq<char>>|
                well_filed(store) && #[trigger] lists(keys, document_views(documents@), store)
                    ==> is_snapshot(course_views(courses@), courses_of(store))
        },
        read matches Err(error) ==> error == CourseRepositoryError::Unexpected,
{
    let mut courses: Vec<Course> = Vec::new();
    let ghost all = documents@;
    for document in iter: documents
        invariant
            iter.seq() == all,
            courses@.len() == iter.index(),
            forall|i: int|
                0 <= i < courses@.len() ==> course_of(all[i]@) == Some(#[trigger] courses@[i]@),
    {
        match Course::try_from(document) {
            Ok(course) => {
                courses.push(course);
            },
            Err(_) => {
                return Err(CourseRepositoryError::Unexpected);
            },
        }
    }
    proof {
        assert forall|i: int| 0 <= i < all.len() implies course_of(#[trigger] all[i]@) is Some by {
            assert(course_of(all[i]@) == Some(courses@[i]@));
        }
        assert forall|store: Map<Seq<char>, CourseDocumentView>, keys: Seq<Seq<char>>|
            well_filed(store) && #[trigger] lists(
                keys,
                document_views(all),
                store,
            ) implies is_snapshot(course_views(courses@), courses_of(store)) by {
            assert forall|i: int| 0 <= i < courses@.len() implies course_of(
                document_views(all)[i],
            ) == Some(#[trigger] course_views(courses@)[i]) by {
                assert(course_of(all[i]@) == Some(courses@[i]@));
            }
            lemma_listing_is_snapshot(store, keys, document_views(all), course_views(courses@));
        }
    }
    Ok(courses)
}

} // verus!
