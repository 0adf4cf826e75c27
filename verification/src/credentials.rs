//! The OAuth access token read from the command-line tool's credentials file.

use vstd::prelude::*;
use crate::error::HudError;

verus! {

/// The credentials the usage endpoint needs.
pub struct Creds {
    pub access_token: String,
}

/// What came of reading the credentials file.
#[derive(Debug)]
pub enum CredsFileRead {
    /// No file at this path (as displayed).
    NotFound(String),
    /// The file exists but could not be read.
    ReadFailed(std::io::Error),
    /// The file is not a credentials document; the parser's message.
    Malformed(String),
    /// The access token that the file holds.
    Token(String),
}

/// The credentials, or the error that reading the file comes to.
pub fn creds_from_read(read: CredsFileRead) -> (r: Result<Creds, HudError>)
    ensures
        read matches CredsFileRead::NotFound(p) ==> (r matches Err(HudError::CredsMissing(q)) && q
            == p),
        read matches CredsFileRead::ReadFailed(e) ==> (r matches Err(HudError::Io(f)) && f == e),
        read matches CredsFileRead::Malformed(m) ==> (r matches Err(HudError::CredsInvalid(n)) && n
            == m),
        read matches CredsFileRead::Token(t) ==> (r matches Ok(c) && c.access_token == t),
{
    match read {
        CredsFileRead::NotFound(p) => Err(HudError::CredsMissing(p)),
        CredsFileRead::ReadFailed(e) => Err(HudError::Io(e)),
        CredsFileRead::Malformed(m) => Err(HudError::CredsInvalid(m)),
        CredsFileRead::Token(t) => Ok(Creds { access_token: t }),
    }
}

} // verus!
