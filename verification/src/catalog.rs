//! The small decisions of the catalog services: who a new entry is
//! attributed to, whether the entry it hangs on exists, and what a failure
//! is called.

use crate::gate::AuthContext;
use crate::pipeline::opt_subject_ref;
use vstd::prelude::*;

verus! {

/// The name that entries made without an identity are attributed to.
pub const SYSTEM_AUTHOR: &'static str = "system";

/// Who a new entry is attributed to: the subject the auth gate attached to
/// the request, or [`SYSTEM_AUTHOR`] where it attached none.
pub fn author(context: Option<&AuthContext>) -> (name: String)
    ensures
        name@ == (match opt_subject_ref(context) {
            Some(subject) => subject,
            None => SYSTEM_AUTHOR@,
        }),
{
    match context {
        Some(context) => context.subject.clone(),
        None => SYSTEM_AUTHOR.to_owned(),
    }
}

/// Why an album service failed.
#[derive(Debug, Clone, PartialEq, Eq)]
pub enum AlbumServiceError {
    /// The store failed; the text says how.
    DatabaseError(String),
    ArtistNotFound,
    AlbumNotFound,
}

/// Why an artist service failed.
#[derive(Debug, Clone, PartialEq, Eq)]
pub enum ArtistServiceError {
    /// The store failed; the text says how.
    DatabaseError(String),
    ArtistNotFound,
}

/// Why a user service failed.
#[derive(Debug, Clone, PartialEq, Eq)]
pub enum UserServiceError {
    /// The store failed; the text says how.
    DatabaseError(String),
    UserNotFound,
}

/// What a lookup in the store answered: whether the entry is there, or the
/// text of the store's failure.
pub open spec fn presence_view(found: Result<bool, String>) -> Result<bool, Seq<char>> {
    match found {
        Ok(b) => Ok(b),
        Err(detail) => Err(detail@),
    }
}

impl AlbumServiceError {
    /// The text of the error.
    pub open spec fn text(self) -> Seq<char> {
        match self {
            AlbumServiceError::DatabaseError(detail) => "Database error: "@ + detail@,
            AlbumServiceError::ArtistNotFound => "Artist not found"@,
            AlbumServiceError::AlbumNotFound => "Album not found"@,
        }
    }

    /// The text of the error.
    pub fn message(&self) -> (text: String)
        ensures
            text@ == self.text(),
    {
        match self {
            AlbumServiceError::DatabaseError(detail) => String::from_str("Database error: ").concat(
                detail.as_str(),
            ),
            AlbumServiceError::ArtistNotFound => String::from_str("Artist not found"),
            AlbumServiceError::AlbumNotFound => String::from_str("Album not found"),
        }
    }

    /// What a client is told when fetching an album failed: that the album
    /// is not there, or no more than that fetching failed.
    pub fn fetch_message(&self) -> (text: &'static str)
        ensures
            text@ == (if *self is AlbumNotFound {
                "Album not found"@
            } else {
                "Failed to fetch album"@
            }),
    {
        match self {
            AlbumServiceError::AlbumNotFound => "Album not found",
            _ => "Failed to fetch album",
        }
    }
}

impl ArtistServiceError {
    /// The text of the error.
    pub open spec fn text(self) -> Seq<char> {
        match self {
            ArtistServiceError::DatabaseError(detail) => "Database error: "@ + detail@,
            ArtistServiceError::ArtistNotFound => "Artist not found"@,
        }
    }

    /// The text of the error.
    pub fn message(&self) -> (text: String)
        ensures
            text@ == self.text(),
    {
        match self {
            ArtistServiceError::DatabaseError(detail) => String::from_str(
                "Database error: ",
            ).concat(detail.as_str()),
            ArtistServiceError::ArtistNotFound => String::from_str("Artist not found"),
        }
    }
}

impl UserServiceError {
    /// The text of the error.
    pub open spec fn text(self) -> Seq<char> {
        match self {
            UserServiceError::DatabaseError(detail) => "Database error: "@ + detail@,
            UserServiceError::UserNotFound => "User not found"@,
        }
    }

    /// The text of the error.
    pub fn message(&self) -> (text: String)
        ensures
            text@ == self.text(),
    {
        match self {
            UserServiceError::DatabaseError(detail) => String::from_str("Database error: ").concat(
                detail.as_str(),
            ),
            UserServiceError::UserNotFound => String::from_str("User not found"),
        }
    }
}

/// Whether an album may be created, given what the store answered to the
/// lookup of its artist: only for an artist that is there.
pub fn require_artist(found: Result<bool, String>) -> (r: Result<(), AlbumServiceError>)
    ensures
        match presence_view(found) {
            Ok(true) => r is Ok,
            Ok(false) => r == Err::<(), AlbumServiceError>(AlbumServiceError::ArtistNotFound),
            Err(detail) => r matches Err(AlbumServiceError::DatabaseError(d)) && d@ == detail,
        },
{
    match found {
        Ok(true) => Ok(()),
        Ok(false) => Err(AlbumServiceError::ArtistNotFound),
        Err(detail) => Err(AlbumServiceError::DatabaseError(detail)),
    }
}

/// What a song cannot be created without.
#[derive(Debug, Clone, Copy, PartialEq, Eq, Structural)]
pub enum MissingParent {
    Album,
    Artist,
}

impl MissingParent {
    /// The text the store's error is given.
    pub fn message(self) -> (text: &'static str)
        ensures
            text@ == (match self {
                MissingParent::Album => "Album not found"@,
                MissingParent::Artist => "Artist not found"@,
            }),
    {
        match self {
            MissingParent::Album => "Album not found",
            MissingParent::Artist => "Artist not found",
        }
    }
}

/// Whether a song may be created, given whether its album and its artist
/// are there: the album is asked for first.
pub fn require_parents(album: bool, artist: bool) -> (r: Result<(), MissingParent>)
    ensures
        r == (if !album {
            Err(MissingParent::Album)
        } else if !artist {
            Err(MissingParent::Artist)
        } else {
            Ok(())
        }),
{
    if !album {
        Err(MissingParent::Album)
    } else if !artist {
        Err(MissingParent::Artist)
    } else {
        Ok(())
    }
}

} // verus!
