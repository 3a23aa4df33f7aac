use request_pipeline::catalog::{
    author, require_artist, require_parents, AlbumServiceError, ArtistServiceError, MissingParent,
    UserServiceError, SYSTEM_AUTHOR,
};
use request_pipeline::gate::AuthContext;

#[test]
fn entries_are_attributed_to_the_subject_or_the_system() {
    let context = AuthContext { subject: "u1".to_string() };
    assert_eq!(author(Some(&context)), "u1");
    assert_eq!(author(None), "system");
    assert_eq!(SYSTEM_AUTHOR, "system");
    let empty = AuthContext { subject: String::new() };
    assert_eq!(author(Some(&empty)), "");
}

#[test]
fn album_needs_its_artist() {
    assert_eq!(require_artist(Ok(true)), Ok(()));
    assert_eq!(require_artist(Ok(false)), Err(AlbumServiceError::ArtistNotFound));
    assert_eq!(
        require_artist(Err("down".to_string())),
        Err(AlbumServiceError::DatabaseError("down".to_string()))
    );
}

#[test]
fn song_needs_album_then_artist() {
    assert_eq!(require_parents(true, true), Ok(()));
    assert_eq!(require_parents(false, true), Err(MissingParent::Album));
    assert_eq!(require_parents(true, false), Err(MissingParent::Artist));
    assert_eq!(require_parents(false, false), Err(MissingParent::Album));
    assert_eq!(MissingParent::Album.message(), "Album not found");
    assert_eq!(MissingParent::Artist.message(), "Artist not found");
}

#[test]
fn catalog_error_texts() {
    assert_eq!(AlbumServiceError::ArtistNotFound.message(), "Artist not found");
    assert_eq!(AlbumServiceError::AlbumNotFound.message(), "Album not found");
    assert_eq!(
        AlbumServiceError::DatabaseError("Conn".to_string()).message(),
        "Database error: Conn"
    );
    assert_eq!(AlbumServiceError::AlbumNotFound.fetch_message(), "Album not found");
    assert_eq!(AlbumServiceError::ArtistNotFound.fetch_message(), "Failed to fetch album");
    assert_eq!(
        AlbumServiceError::DatabaseError("Album not found".to_string()).fetch_message(),
        "Failed to fetch album"
    );
    assert_eq!(ArtistServiceError::ArtistNotFound.message(), "Artist not found");
    assert_eq!(
        ArtistServiceError::DatabaseError("x".to_string()).message(),
        "Database error: x"
    );
    assert_eq!(UserServiceError::UserNotFound.message(), "User not found");
    assert_eq!(UserServiceError::DatabaseError(String::new()).message(), "Database error: ");
}
