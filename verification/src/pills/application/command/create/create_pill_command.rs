use crate::pills::domain::{PillId, PillView};
use vstd::prelude::*;

verus! {

/// The request to create a pill.
#[derive(Debug)]
pub struct CreatePillCommand {
    pub title: String,
    pub content: String,
}

impl CreatePillCommand {
    /// The pill that the command asks for, under a given identifier.
    pub open spec fn pill(self, id: PillId) -> PillView {
        PillView { id, title: self.title@, content: self.content@ }
    }
}

} // verus!
