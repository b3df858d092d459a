//! The record under which a document store keeps a pill, and the way from
//! pills to records and back.

use crate::pills::domain::pills_repository::pill_views;
use crate::pills::domain::{Pill, PillId, PillView, RepositoryError};
use crate::store::{is_snapshot, lists};
use vstd::prelude::*;

verus! {

/// A pill as a document store keeps it: the identifier as text, under which
/// the document is filed.
#[derive(Debug)]
pub struct PillDocument {
    pub id: String,
    pub title: String,
    pub content: String,
}

/// What a pill document holds, as mathematical values.
pub ghost struct PillDocumentView {
    pub id: Seq<char>,
    pub title: Seq<char>,
    pub content: Seq<char>,
}

impl View for PillDocument {
    type V = PillDocumentView;

    open spec fn view(&self) -> PillDocumentView {
        PillDocumentView { id: self.id@, title: self.title@, content: self.content@ }
    }
}

/// The document that stands for a pill.
pub open spec fn document_of(pill: PillView) -> PillDocumentView {
    PillDocumentView { id: pill.id.text(), title: pill.title, content: pill.content }
}

/// The pill that a document stands for. A document whose identifier is no
/// identifier's text stands for none.
pub open spec fn pill_of(document: PillDocumentView) -> Option<PillView> {
    match PillId::parsed(document.id) {
        Some(id) => Some(PillView { id, title: document.title, content: document.content }),
        None => None,
    }
}

/// Whether every document of a store is filed under its own identifier, and
/// that identifier is the canonical text of the identifier it stands for.
pub open spec fn well_filed(documents: Map<Seq<char>, PillDocumentView>) -> bool {
    forall|key: Seq<char>| #[trigger]
        documents.contains_key(key) ==> {
            &&& documents[key].id == key
            &&& PillId::parsed(key) matches Some(id) && id.text() == key
        }
}

/// The pills that a store of documents stands for: under each identifier the
/// pill of the document that is filed under the identifier's text.
pub open spec fn pills_of(documents: Map<Seq<char>, PillDocumentView>) -> Map<PillId, PillView> {
    Map::new(
        |id: PillId| documents.contains_key(id.text()) && PillId::parsed(id.text()) == Some(id),
        |id: PillId|
            PillView {
                id,
                title: documents[id.text()].title,
                content: documents[id.text()].content,
            },
    )
}

/// Filing the document of a pill under the pill's key is saving the pill:
/// the store stays well filed, and the pills that it stands for are those
/// it stood for before, with the pill in place of what was stored under its
/// identifier.
pub proof fn lemma_filing_is_saving(documents: Map<Seq<char>, PillDocumentView>, pill: PillView)
    requires
        well_filed(documents),
        PillId::parsed(pill.id.text()) == Some(pill.id),
    ensures
        well_filed(documents.insert(pill.id.text(), document_of(pill))),
        pills_of(documents.insert(pill.id.text(), document_of(pill))) == pills_of(
            documents,
        ).insert(pill.id, pill),
{
    let key = pill.id.text();
    let after = documents.insert(key, document_of(pill));
    assert forall|other: Seq<char>| #[trigger] after.contains_key(other) implies {
        &&& after[other].id == other
        &&& PillId::parsed(other) matches Some(id) && id.text() == other
    } by {
        if other != key {
            assert(documents.contains_key(other));
        }
    }
    assert(pills_of(after) =~= pills_of(documents).insert(pill.id, pill));
}

/// Looking a pill up under its key is looking it up in the pills that the
/// store stands for.
pub proof fn lemma_lookup_by_key(documents: Map<Seq<char>, PillDocumentView>, id: PillId)
    requires
        well_filed(documents),
        PillId::parsed(id.text()) == Some(id),
    ensures
        documents.contains_key(id.text()) <==> pills_of(documents).contains_key(id),
        documents.contains_key(id.text()) ==> pill_of(documents[id.text()]) == Some(
            pills_of(documents)[id],
        ),
{
    if documents.contains_key(id.text()) {
        assert(documents[id.text()].id == id.text());
    }
}

/// The views of a sequence of documents.
pub open spec fn document_views(documents: Seq<PillDocument>) -> Seq<PillDocumentView> {
    documents.map_values(|document: PillDocument| document@)
}

/// Reading every document of a well-filed store gives every pill that the
/// store stands for, once.
pub proof fn lemma_listing_is_snapshot(
    store: Map<Seq<char>, PillDocumentView>,
    keys: Seq<Seq<char>>,
    documents: Seq<PillDocumentView>,
    pills: Seq<PillView>,
)
    requires
        well_filed(store),
        lists(keys, documents, store),
        pills.len() == documents.len(),
        forall|i: int| 0 <= i < pills.len() ==> pill_of(documents[i]) == Some(#[trigger] pills[i]),
    ensures
        is_snapshot(pills, pills_of(store)),
{
    let ids = keys.map_values(|key: Seq<char>| PillId::parsed(key).unwrap());
    assert forall|i: int| 0 <= i < keys.len() implies {
        &&& store.contains_key(#[trigger] keys[i])
        &&& ids[i].text() == keys[i]
        &&& PillId::parsed(keys[i]) == Some(ids[i])
        &&& documents[i] == store[keys[i]]
        &&& store[keys[i]].id == keys[i]
    } by {
        assert(keys.contains(keys[i]));
    }
    assert forall|i: int, j: int| 0 <= i < ids.len() && 0 <= j < ids.len() && i != j implies ids[i]
        != ids[j] by {
        assert(ids[i].text() == keys[i] && ids[j].text() == keys[j]);
    }
    assert forall|id: PillId| ids.contains(id) <==> pills_of(store).contains_key(id) by {
        if ids.contains(id) {
            let i = choose|i: int| 0 <= i < ids.len() && ids[i] == id;
            assert(store.contains_key(keys[i]));
        }
        if pills_of(store).contains_key(id) {
            assert(keys.contains(id.text()));
            let i = choose|i: int| 0 <= i < keys.len() && keys[i] == id.text();
            assert(ids[i] == id);
        }
    }
    assert forall|i: int| 0 <= i < ids.len() implies pills[i] == pills_of(store)[#[trigger] ids[i]] by {
        assert(store.contains_key(keys[i]));
        assert(pill_of(documents[i]) == Some(pills[i]));
    }
    assert(lists(ids, pills, pills_of(store)));
}

/// Whether every document of a sequence stands for a pill.
pub open spec fn all_readable(documents: Seq<PillDocument>) -> bool {
    forall|i: int| 0 <= i < documents.len() ==> pill_of(#[trigger] documents[i]@) is Some
}

/// The text under which the document of a pill is filed. In a well-filed
/// store, a document is filed under it exactly if the store stands for a
/// pill with the identifier, and that document stands for that pill.
pub fn document_key(id: PillId) -> (key: String)
    ensures
        key@ == id.text(),
        PillId::parsed(key@) == Some(id),
        forall|documents: Map<Seq<char>, PillDocumentView>| #[trigger]
            well_filed(documents) ==> {
                &&& documents.contains_key(key@) <==> pills_of(documents).contains_key(id)
                &&& documents.contains_key(key@) ==> pill_of(documents[key@]) == Some(
                    pills_of(documents)[id],
                )
            },
{
    let key = id.to_string();
    proof {
        assert forall|documents: Map<Seq<char>, PillDocumentView>| #[trigger]
            well_filed(documents) implies {
            &&& documents.contains_key(key@) <==> pills_of(documents).contains_key(id)
            &&& documents.contains_key(key@) ==> pill_of(documents[key@]) == Some(
                pills_of(documents)[id],
            )
        } by {
            lemma_lookup_by_key(documents, id);
        }
    }
    key
}

impl PillDocument {
    /// The document that stands for a pill. Reading it gives the pill back,
    /// and filing it under its identifier in a well-filed store is saving
    /// the pill.
    pub fn from(pill: &Pill) -> (document: PillDocument)
        ensures
            document@ == document_of(pill@),
            pill_of(document@) == Some(pill@),
            forall|documents: Map<Seq<char>, PillDocumentView>| #[trigger]
                well_filed(documents) ==> {
                    &&& well_filed(documents.insert(document@.id, document@))
                    &&& pills_of(documents.insert(document@.id, document@)) == pills_of(
                        documents,
                    ).insert(pill@.id, pill@)
                },
    {
        let document = PillDocument {
            id: pill.id().to_string(),
            title: pill.title().to_owned(),
            content: pill.content().to_owned(),
        };
        proof {
            assert forall|documents: Map<Seq<char>, PillDocumentView>| #[trigger]
                well_filed(documents) implies {
                &&& well_filed(documents.insert(document@.id, document@))
                &&& pills_of(documents.insert(document@.id, document@)) == pills_of(
                    documents,
                ).insert(pill@.id, pill@)
            } by {
                lemma_filing_is_saving(documents, pill@);
            }
        }
        document
    }
}

impl Pill {
    /// The pill that a document stands for. Fails where the document's
    /// identifier is no identifier's text.
    pub fn try_from(document: PillDocument) -> (read: Result<Pill, uuid::Error>)
        ensures
            read is Ok <==> pill_of(document@) is Some,
            read matches Ok(pill) ==> pill_of(document@) == Some(pill@),
    {
        match PillId::from_str(document.id.as_str()) {
            Ok(id) => Ok(Pill::create(id, document.title, document.content)),
            Err(error) => Err(error),
        }
    }
}

/// What a lookup returns, given the document that the store found: the pill
/// that the document stands for, nothing where the store found nothing, and
/// `Unexpected` where the document stands for no pill.
pub fn pill_from_lookup(found: Option<PillDocument>) -> (read: Result<
    Option<Pill>,
    RepositoryError,
>)
    ensures
        found is None ==> read == Ok::<Option<Pill>, RepositoryError>(None),
        found matches Some(document) ==> match pill_of(document@) {
            Some(view) => read matches Ok(Some(pill)) && pill@ == view,
            None => read == Err::<Option<Pill>, RepositoryError>(RepositoryError::Unexpected),
        },
{
    match found {
        None => Ok(None),
        Some(document) => match Pill::try_from(document) {
            Ok(pill) => Ok(Some(pill)),
            Err(_) => Err(RepositoryError::Unexpected),
        },
    }
}

/// The pills that the documents of a store stand for, in the order of the
/// documents. One document that stands for no pill fails the whole reading
/// with `Unexpected`. Where the documents are all those of a well-filed
/// store, the pills are all those that the store stands for.
pub fn pills_from_documents(documents: Vec<PillDocument>) -> (read: Result<
    Vec<Pill>,
    RepositoryError,
>)
    ensures
        read is Ok <==> all_readable(documents@),
        read matches Ok(pills) ==> {
            &&& pills@.len() == documents@.len()
            &&& forall|i: int|
                0 <= i < pills@.len() ==> pill_of(documents@[i]@) == Some(#[trigger] pills@[i]@)
            &&& forall|store: Map<Seq<char>, PillDocumentView>, keys: Seq<Seq<char>>|
                well_filed(store) && #[trigger] lists(keys, document_views(documents@), store)
                    ==> is_snapshot(pill_views(pills@), pills_of(store))
        },
        read matches Err(error) ==> error == RepositoryError::Unexpected,
{
    let mut pills: Vec<Pill> = Vec::new();
    let ghost all = documents@;
    for document in iter: documents
        invariant
            iter.seq() == all,
            pills@.len() == iter.index(),
            forall|i: int| 0 <= i < pills@.len() ==> pill_of(all[i]@) == Some(#[trigger] pills@[i]@),
    {
        match Pill::try_from(document) {
            Ok(pill) => {
                pills.push(pill);
            },
            Err(_) => {
                return Err(RepositoryError::Unexpected);
            },
        }
    }
    proof {
        assert forall|i: int| 0 <= i < all.len() implies pill_of(#[trigger] all[i]@) is Some by {
            assert(pill_of(all[i]@) == Some(pills@[i]@));
        }
        assert forall|store: Map<Seq<char>, PillDocumentView>, keys: Seq<Seq<char>>|
            well_filed(store) && #[trigger] lists(
                keys,
                document_views(all),
                store,
            ) implies is_snapshot(pill_views(pills@), pills_of(store)) by {
            assert forall|i: int| 0 <= i < pills@.len() implies pill_of(document_views(all)[i])
                == Some(#[trigger] pill_views(pills@)[i]) by {
                assert(pill_of(all[i]@) == Some(pills@[i]@));
            }
            lemma_listing_is_snapshot(store, keys, document_views(all), pill_views(pills@));
        }
    }
    Ok(pills)
}

} // verus!
