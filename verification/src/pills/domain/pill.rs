use crate::identifier::{
    format_uuid, is_random_uuid, parse_uuid, random_uuid, uuid_parse, uuid_text,
};
use vstd::prelude::*;

verus! {

/// The identity of a pill: an opaque 128-bit value, compared for equality only.
#[derive(Clone, Copy, Debug, PartialEq, Eq, Hash, Structural)]
pub struct PillId(pub u128);

impl PillId {
    /// The canonical text of the identifier.
    pub open spec fn text(self) -> Seq<char> {
        uuid_text(self.0)
    }

    /// The identifier that a text stands for, if it stands for one.
    pub open spec fn parsed(text: Seq<char>) -> Option<PillId> {
        match uuid_parse(text) {
            Some(value) => Some(PillId(value)),
            None => None,
        }
    }

    /// A randomly drawn identifier: one of version 4, with every bit but
    /// those of its version and variant fields drawn at random.
    pub fn new() -> (id: PillId)
        ensures
            is_random_uuid(id.0),
    {
        PillId(random_uuid())
    }

    /// Reads an identifier from its text.
    pub fn from_str(s: &str) -> (parsed: Result<PillId, uuid::Error>)
        ensures
            parsed is Ok <==> PillId::parsed(s@) is Some,
            parsed matches Ok(id) ==> PillId::parsed(s@) == Some(id),
    {
        match parse_uuid(s) {
            Ok(value) => Ok(PillId(value)),
            Err(error) => Err(error),
        }
    }

    /// The canonical text of the identifier, from which `from_str` reads the
    /// identifier back.
    pub fn to_string(&self) -> (text: String)
        ensures
            text@ == self.text(),
            PillId::parsed(text@) == Some(*self),
    {
        format_uuid(self.0)
    }
}

impl Default for PillId {
    fn default() -> (id: PillId)
        ensures
            is_random_uuid(id.0),
    {
        PillId::new()
    }
}

impl std::str::FromStr for PillId {
    type Err = uuid::Error;

    /// Reads an identifier from its text, as the inherent `from_str` does.
    fn from_str(s: &str) -> (parsed: Result<PillId, uuid::Error>)
        ensures
            parsed is Ok <==> PillId::parsed(s@) is Some,
            parsed matches Ok(id) ==> PillId::parsed(s@) == Some(id),
    {
        PillId::from_str(s)
    }
}

/// What a pill holds, as mathematical values.
pub ghost struct PillView {
    pub id: PillId,
    pub title: Seq<char>,
    pub content: Seq<char>,
}

/// A standalone unit of content. It is created once and not changed after.
#[derive(Debug)]
pub struct Pill {
    id: PillId,
    title: String,
    content: String,
}

impl View for Pill {
    type V = PillView;

    closed spec fn view(&self) -> PillView {
        PillView { id: self.id, title: self.title@, content: self.content@ }
    }
}

impl Clone for Pill {
    fn clone(&self) -> (copy: Pill)
        ensures
            copy@ == self@,
    {
        Pill { id: self.id, title: self.title.clone(), content: self.content.clone() }
    }
}

impl Pill {
    pub fn create(id: PillId, title: String, content: String) -> (pill: Pill)
        ensures
            pill@ == (PillView { id, title: title@, content: content@ }),
    {
        Pill { id, title, content }
    }

    pub fn id(&self) -> (id: PillId)
        ensures
            id == self@.id,
    {
        self.id
    }

    pub fn title(&self) -> (title: &str)
        ensures
            title@ == self@.title,
    {
        self.title.as_str()
    }

    pub fn content(&self) -> (content: &str)
        ensures
            content@ == self@.content,
    {
        self.content.as_str()
    }
}

} // verus!
