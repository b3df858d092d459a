use crate::identifier::{
    format_uuid, is_random_uuid, parse_uuid, random_uuid, uuid_parse, uuid_text,
};
use crate::ordered_set::{
    append_if_absent, distinct, lemma_append_if_absent, lemma_distinct, lemma_without, without,
};
use crate::pills::domain::PillId;
use vstd::prelude::*;

verus! {

/// The identity of a course: an opaque 128-bit value, compared for equality
/// only.
#[derive(Clone, Copy, Debug, PartialEq, Eq, Hash, Structural)]
pub struct CourseId(pub u128);

impl CourseId {
    /// The canonical text of the identifier.
    pub open spec fn text(self) -> Seq<char> {
        uuid_text(self.0)
    }

    /// The identifier that a text stands for, if it stands for one.
    pub open spec fn parsed(text: Seq<char>) -> Option<CourseId> {
        match uuid_parse(text) {
            Some(value) => Some(CourseId(value)),
            None => None,
        }
    }

    /// A randomly drawn identifier: one of version 4, with every bit but
    /// those of its version and variant fields drawn at random.
    pub fn new() -> (id: CourseId)
        ensures
            is_random_uuid(id.0),
    {
        CourseId(random_uuid())
    }

    /// Reads an identifier from its text.
    pub fn from_str(s: &str) -> (parsed: Result<CourseId, uuid::Error>)
        ensures
            parsed is Ok <==> CourseId::parsed(s@) is Some,
            parsed matches Ok(id) ==> CourseId::parsed(s@) == Some(id),
    {
        match parse_uuid(s) {
            Ok(value) => Ok(CourseId(value)),
            Err(error) => Err(error),
        }
    }

    /// The canonical text of the identifier, from which `from_str` reads the
    /// identifier back.
    pub fn to_string(&self) -> (text: String)
        ensures
            text@ == self.text(),
            CourseId::parsed(text@) == Some(*self),
    {
        format_uuid(self.0)
    }
}

impl Default for CourseId {
    fn default() -> (id: CourseId)
        ensures
            is_random_uuid(id.0),
    {
        CourseId::new()
    }
}

impl std::str::FromStr for CourseId {
    type Err = uuid::Error;

    /// Reads an identifier from its text, as the inherent `from_str` does.
    fn from_str(s: &str) -> (parsed: Result<CourseId, uuid::Error>)
        ensures
            parsed is Ok <==> CourseId::parsed(s@) is Some,
            parsed matches Ok(id) ==> CourseId::parsed(s@) == Some(id),
    {
        CourseId::from_str(s)
    }
}

/// How demanding a course is.
#[derive(Clone, Copy, Debug, PartialEq, Eq, Structural)]
pub enum Difficulty {
    Beginner,
    Intermediate,
    Advanced,
    Expert,
}

impl Difficulty {
    /// The label under which a difficulty is shown and stored.
    pub open spec fn label(self) -> Seq<char> {
        match self {
            Difficulty::Beginner => "Beginner"@,
            Difficulty::Intermediate => "Intermediate"@,
            Difficulty::Advanced => "Advanced"@,
            Difficulty::Expert => "Expert"@,
        }
    }

    pub fn to_string(&self) -> (text: String)
        ensures
            text@ == self.label(),
    {
        match self {
            Difficulty::Beginner => "Beginner".to_owned(),
            Difficulty::Intermediate => "Intermediate".to_owned(),
            Difficulty::Advanced => "Advanced".to_owned(),
            Difficulty::Expert => "Expert".to_owned(),
        }
    }
}

/// The price of a course, held as the bit pattern of the single-precision
/// number that states it. The catalog stores and returns a price and never
/// computes with it.
#[derive(Clone, Copy, Debug, PartialEq, Eq, Structural)]
pub struct Price(pub u32);

/// The views of a sequence of strings.
pub open spec fn texts(strings: Seq<String>) -> Seq<Seq<char>> {
    strings.map_values(|text: String| text@)
}

/// What a course holds, as mathematical values.
pub ghost struct CourseView {
    pub id: CourseId,
    pub title: Seq<char>,
    pub description: Seq<char>,
    pub instructor: Seq<char>,
    pub pill_ids: Seq<PillId>,
    pub difficulty: Difficulty,
    pub hours: i8,
    pub tags: Seq<Seq<char>>,
    pub price: Price,
}

impl CourseView {
    /// The pills and the tags of a course are ordered sets.
    pub open spec fn wf(self) -> bool {
        &&& self.pill_ids.no_duplicates()
        &&& self.tags.no_duplicates()
    }

    /// The course with one more pill, unless it refers to the pill already.
    pub open spec fn with_pill(self, pill_id: PillId) -> CourseView {
        CourseView { pill_ids: append_if_absent(self.pill_ids, pill_id), ..self }
    }

    /// The course with one more tag, unless it carries the tag already.
    pub open spec fn with_tag(self, tag: Seq<char>) -> CourseView {
        CourseView { tags: append_if_absent(self.tags, tag), ..self }
    }

    /// The course without a tag.
    pub open spec fn without_tag(self, tag: Seq<char>) -> CourseView {
        CourseView { tags: without(self.tags, tag), ..self }
    }
}

/// Whether `ids` holds `id`.
fn holds_pill(ids: &Vec<PillId>, id: PillId) -> (found: bool)
    ensures
        found == ids@.contains(id),
{
    let mut i: usize = 0;
    while i < ids.len()
        invariant
            i <= ids.len(),
            forall|j: int| 0 <= j < i ==> ids@[j] != id,
        decreases ids.len() - i,
    {
        if ids[i] == id {
            return true;
        }
        i += 1;
    }
    false
}

/// Whether `tags` holds a string that reads as `tag`.
fn holds_tag(tags: &Vec<String>, tag: &String) -> (found: bool)
    ensures
        found == texts(tags@).contains(tag@),
{
    let mut i: usize = 0;
    while i < tags.len()
        invariant
            i <= tags.len(),
            forall|j: int| 0 <= j < i ==> texts(tags@)[j] != tag@,
        decreases tags.len() - i,
    {
        if tags[i] == *tag {
            assert(texts(tags@)[i as int] == tag@);
            return true;
        }
        i += 1;
    }
    false
}

/// The first occurrence of each identifier, in order.
fn distinct_pill_ids(ids: &Vec<PillId>) -> (kept: Vec<PillId>)
    ensures
        kept@ == distinct(ids@),
{
    let mut kept: Vec<PillId> = Vec::new();
    let mut i: usize = 0;
    while i < ids.len()
        invariant
            i <= ids.len(),
            kept@ == distinct(ids@.take(i as int)),
        decreases ids.len() - i,
    {
        let id = ids[i];
        proof {
            assert(ids@.take(i + 1).drop_last() =~= ids@.take(i as int));
            assert(ids@.take(i + 1).last() == id);
        }
        if !holds_pill(&kept, id) {
            kept.push(id);
        }
        i += 1;
    }
    proof {
        assert(ids@.take(i as int) =~= ids@);
    }
    kept
}

/// The first occurrence of each tag, in order.
fn distinct_tags(tags: Vec<String>) -> (kept: Vec<String>)
    ensures
        texts(kept@) == distinct(texts(tags@)),
{
    let mut kept: Vec<String> = Vec::new();
    let ghost given = tags@;
    proof {
        assert(texts(kept@) =~= distinct(texts(given).take(0)));
    }
    for tag in iter: tags
        invariant
            iter.seq() == given,
            texts(kept@) == distinct(texts(given).take(iter.index())),
    {
        proof {
            assert(texts(given).take(iter.index() + 1).drop_last() =~= texts(given).take(
                iter.index(),
            ));
            assert(texts(given).take(iter.index() + 1).last() == tag@);
        }
        if !holds_tag(&kept, &tag) {
            let ghost before = kept@;
            kept.push(tag);
            proof {
                assert(texts(kept@) =~= texts(before).push(tag@));
            }
        }
    }
    proof {
        assert(texts(given).take(given.len() as int) =~= texts(given));
    }
    kept
}

/// A copy of a list of strings.
pub(crate) fn copy_texts(strings: &[String]) -> (copy: Vec<String>)
    ensures
        texts(copy@) == texts(strings@),
{
    let mut copy: Vec<String> = Vec::new();
    let mut i: usize = 0;
    while i < strings.len()
        invariant
            i <= strings.len(),
            copy@.len() == i,
            forall|j: int| 0 <= j < i ==> (#[trigger] copy@[j])@ == strings@[j]@,
        decreases strings.len() - i,
    {
        copy.push(strings[i].clone());
        i += 1;
    }
    proof {
        assert(texts(copy@) =~= texts(strings@));
    }
    copy
}

/// A copy of a list of pill identifiers.
fn copy_pill_ids(ids: &Vec<PillId>) -> (copy: Vec<PillId>)
    ensures
        copy@ == ids@,
{
    let mut copy: Vec<PillId> = Vec::new();
    let mut i: usize = 0;
    while i < ids.len()
        invariant
            i <= ids.len(),
            copy@ == ids@.take(i as int),
        decreases ids.len() - i,
    {
        copy.push(ids[i]);
        proof {
            assert(copy@ =~= ids@.take(i + 1));
        }
        i += 1;
    }
    proof {
        assert(ids@.take(i as int) =~= ids@);
    }
    copy
}

/// A learning path that refers to pills by identifier.
#[derive(Debug)]
pub struct Course {
    id: CourseId,
    title: String,
    description: String,
    instructor: String,
    pill_ids: Vec<PillId>,
    difficulty: Difficulty,
    hours: i8,
    tags: Vec<String>,
    price: Price,
}

impl View for Course {
    type V = CourseView;

    closed spec fn view(&self) -> CourseView {
        CourseView {
            id: self.id,
            title: self.title@,
            description: self.description@,
            instructor: self.instructor@,
            pill_ids: self.pill_ids@,
            difficulty: self.difficulty,
            hours: self.hours,
            tags: texts(self.tags@),
            price: self.price,
        }
    }
}

impl Clone for Course {
    fn clone(&self) -> (copy: Course)
        ensures
            copy@ == self@,
    {
        proof {
            use_type_invariant(self);
        }
        Course {
            id: self.id,
            title: self.title.clone(),
            description: self.description.clone(),
            instructor: self.instructor.clone(),
            pill_ids: copy_pill_ids(&self.pill_ids),
            difficulty: self.difficulty,
            hours: self.hours,
            tags: copy_texts(self.tags.as_slice()),
            price: self.price,
        }
    }
}

impl Course {
    #[verifier::type_invariant]
    closed spec fn well_formed(&self) -> bool {
        &&& self.pill_ids@.no_duplicates()
        &&& texts(self.tags@).no_duplicates()
    }

    /// A course with the given attributes. Of the tags and of the pill
    /// identifiers the first occurrence of each is kept, in the order given.
    pub fn create(
        id: CourseId,
        title: String,
        description: String,
        instructor: String,
        difficulty: Difficulty,
        hours: i8,
        tags: Vec<String>,
        price: Price,
        pill_ids: Vec<PillId>,
    ) -> (course: Course)
        ensures
            course@ == (CourseView {
                id,
                title: title@,
                description: description@,
                instructor: instructor@,
                pill_ids: distinct(pill_ids@),
                difficulty,
                hours,
                tags: distinct(texts(tags@)),
                price,
            }),
            course@.wf(),
    {
        let kept_tags = distinct_tags(tags);
        let kept_pill_ids = distinct_pill_ids(&pill_ids);
        proof {
            lemma_distinct(texts(tags@));
            lemma_distinct(pill_ids@);
        }
        Course {
            id,
            title,
            description,
            instructor,
            pill_ids: kept_pill_ids,
            difficulty,
            hours,
            tags: kept_tags,
            price,
        }
    }

    /// A course that refers to no pill yet.
    pub fn new(
        id: CourseId,
        title: String,
        description: String,
        instructor: String,
        difficulty: Difficulty,
        hours: i8,
        tags: Vec<String>,
        price: Price,
    ) -> (course: Course)
        ensures
            course@ == (CourseView {
                id,
                title: title@,
                description: description@,
                instructor: instructor@,
                pill_ids: Seq::empty(),
                difficulty,
                hours,
                tags: distinct(texts(tags@)),
                price,
            }),
            course@.wf(),
    {
        Course::create(
            id,
            title,
            description,
            instructor,
            difficulty,
            hours,
            tags,
            price,
            Vec::new(),
        )
    }

    pub fn id(&self) -> (id: CourseId)
        ensures
            id == self@.id,
    {
        self.id
    }

    pub fn title(&self) -> (title: &str)
        ensures
            title@ == self@.title,
    {
        self.title.as_str()
    }

    /// Whether the course goes by the given title.
    pub(crate) fn has_title(&self, title: &String) -> (same: bool)
        ensures
            same == (self@.title == title@),
    {
        self.title == *title
    }

    pub fn description(&self) -> (description: &str)
        ensures
            description@ == self@.description,
    {
        self.description.as_str()
    }

    pub fn instructor(&self) -> (instructor: &str)
        ensures
            instructor@ == self@.instructor,
    {
        self.instructor.as_str()
    }

    pub fn pill_ids(&self) -> (pill_ids: &[PillId])
        ensures
            pill_ids@ == self@.pill_ids,
            self@.wf(),
    {
        proof {
            use_type_invariant(self);
        }
        self.pill_ids.as_slice()
    }

    pub fn difficulty(&self) -> (difficulty: Difficulty)
        ensures
            difficulty == self@.difficulty,
    {
        self.difficulty
    }

    pub fn hours(&self) -> (hours: i8)
        ensures
            hours == self@.hours,
    {
        self.hours
    }

    pub fn tags(&self) -> (tags: &[String])
        ensures
            texts(tags@) == self@.tags,
            self@.wf(),
    {
        proof {
            use_type_invariant(self);
        }
        self.tags.as_slice()
    }

    pub fn price(&self) -> (price: Price)
        ensures
            price == self@.price,
    {
        self.price
    }

    /// Refers to one more pill, unless the course refers to it already.
    pub fn add_pill(&mut self, pill_id: PillId)
        ensures
            old(self)@.wf(),
            final(self)@ == old(self)@.with_pill(pill_id),
            final(self)@.wf(),
    {
        proof {
            use_type_invariant(&*self);
            lemma_append_if_absent(self.pill_ids@, pill_id);
        }
        if !holds_pill(&self.pill_ids, pill_id) {
            let mut pill_ids: Vec<PillId> = Vec::new();
            std::mem::swap(&mut self.pill_ids, &mut pill_ids);
            pill_ids.push(pill_id);
            std::mem::swap(&mut self.pill_ids, &mut pill_ids);
        }
    }

    pub fn pill_count(&self) -> (count: usize)
        ensures
            count == self@.pill_ids.len(),
    {
        self.pill_ids.len()
    }

    /// Carries one more tag, unless the course carries it already.
    pub fn add_tag(&mut self, tag: String)
        ensures
            final(self)@ == old(self)@.with_tag(tag@),
            final(self)@.wf(),
    {
        proof {
            use_type_invariant(&*self);
            lemma_append_if_absent(texts(self.tags@), tag@);
        }
        if !holds_tag(&self.tags, &tag) {
            let mut tags: Vec<String> = Vec::new();
            proof {
                assert(texts(tags@) =~= Seq::<Seq<char>>::empty());
            }
            std::mem::swap(&mut self.tags, &mut tags);
            let ghost before = tags@;
            tags.push(tag);
            proof {
                assert(texts(tags@) =~= texts(before).push(tag@));
            }
            std::mem::swap(&mut self.tags, &mut tags);
        }
    }

    /// Drops a tag, where the course carries it.
    pub fn remove_tag(&mut self, tag: &str)
        ensures
            final(self)@ == old(self)@.without_tag(tag@),
            final(self)@.wf(),
    {
        proof {
            use_type_invariant(&*self);
            lemma_without(texts(self.tags@), tag@);
        }
        let unwanted: String = tag.to_owned();
        let mut tags: Vec<String> = Vec::new();
        let mut kept: Vec<String> = Vec::new();
        proof {
            reveal(Seq::filter);
            assert(texts(tags@) =~= Seq::<Seq<char>>::empty());
        }
        std::mem::swap(&mut self.tags, &mut tags);
        let ghost given = tags@;
        proof {
            assert(texts(kept@) =~= without(texts(given).take(0), tag@));
        }
        for carried in iter: tags
            invariant
                iter.seq() == given,
                unwanted@ == tag@,
                texts(kept@) == without(texts(given).take(iter.index()), tag@),
        {
            let ghost before = kept@;
            proof {
                reveal(Seq::filter);
                assert(texts(given).take(iter.index() + 1).drop_last() =~= texts(given).take(
                    iter.index(),
                ));
                assert(texts(given).take(iter.index() + 1).last() == carried@);
            }
            if carried != unwanted {
                kept.push(carried);
                proof {
                    assert(texts(kept@) =~= texts(before).push(carried@));
                }
            }
        }
        proof {
            assert(texts(given).take(given.len() as int) =~= texts(given));
        }
        std::mem::swap(&mut self.tags, &mut kept);
    }

    pub fn has_tag(&self, tag: &str) -> (found: bool)
        ensures
            found == self@.tags.contains(tag@),
    {
        let wanted: String = tag.to_owned();
        holds_tag(&self.tags, &wanted)
    }

    pub fn update_difficulty(&mut self, difficulty: Difficulty)
        ensures
            final(self)@ == (CourseView { difficulty, ..old(self)@ }),
    {
        proof {
            use_type_invariant(&*self);
        }
        self.difficulty = difficulty;
    }

    pub fn update_hours(&mut self, hours: i8)
        ensures
            final(self)@ == (CourseView { hours, ..old(self)@ }),
    {
        proof {
            use_type_invariant(&*self);
        }
        self.hours = hours;
    }

    pub fn update_price(&mut self, price: Price)
        ensures
            final(self)@ == (CourseView { price, ..old(self)@ }),
    {
        proof {
            use_type_invariant(&*self);
        }
        self.price = price;
    }
}

} // verus!
