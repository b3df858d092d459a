pub mod pill_document;

pub use pill_document::PillDocument;
