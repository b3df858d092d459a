//! What the transport layer does with pills apart from moving bytes: the
//! shape of a request, and the status under which an outcome is reported.

use crate::pills::application::CreatePillCommand;
use crate::pills::domain::{Pill, PillId, RepositoryError};
use vstd::prelude::*;

verus! {

/// The status code of a request that was served.
pub const OK: u16 = 200;

/// The status code of a request that created something.
pub const CREATED: u16 = 201;

/// The body of a request to create a pill.
#[derive(Debug)]
pub struct CreatePillRequest {
    pub title: String,
    pub content: String,
}

impl CreatePillRequest {
    /// The command that the request asks for.
    pub fn into_command(self) -> (command: CreatePillCommand)
        ensures
            command.title == self.title,
            command.content == self.content,
    {
        CreatePillCommand { title: self.title, content: self.content }
    }
}

/// The status under which the creation of a pill is reported.
pub fn create_pill_status(created: &Result<PillId, RepositoryError>) -> (code: u16)
    ensures
        code == (match created {
            Ok(_) => CREATED,
            Err(error) => error.status(),
        }),
{
    match created {
        Ok(_) => CREATED,
        Err(error) => error.status_code(),
    }
}

/// The status under which the lookup of a pill is reported.
pub fn find_pill_status(found: &Result<Pill, RepositoryError>) -> (code: u16)
    ensures
        code == (match found {
            Ok(_) => OK,
            Err(error) => error.status(),
        }),
{
    match found {
        Ok(_) => OK,
        Err(error) => error.status_code(),
    }
}

/// The status under which the listing of the pills is reported.
pub fn find_all_pills_status(found: &Result<Vec<Pill>, RepositoryError>) -> (code: u16)
    ensures
        code == (match found {
            Ok(_) => OK,
            Err(error) => error.status(),
        }),
{
    match found {
        Ok(_) => OK,
        Err(error) => error.status_code(),
    }
}

} // verus!
