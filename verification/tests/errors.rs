use suisai::reply::{Body, Reply};
use suisai::status::{CONFLICT, INTERNAL_SERVER_ERROR};
use suisai::utils::axum_error::{AxumError, IntoAxumError};
use suisai::utils::get_id::{get_album_id, get_directory_id, DirectoryLookup, IdLookupError};
use suisai::models::directory::Directory;
use suisai::models::thing::{RecordId, RecordKey};

fn id(table: &str, key: &str) -> RecordId {
    RecordId { table: table.to_string(), key: RecordKey::Text(key.to_string()) }
}

#[test]
fn or_error_keeps_a_success() {
    let r: Result<u8, String> = Ok(7);
    assert_eq!(r.or_error(CONFLICT), Ok(7));
}

#[test]
fn or_error_gives_the_error_its_status() {
    let r: Result<u8, String> = Err("duplicate".to_string());
    assert_eq!(r.or_error(CONFLICT), Err(AxumError("duplicate".to_string(), 409)));
}

#[test]
fn or_500_gives_status_500() {
    let r: Result<u8, String> = Err("broken".to_string());
    assert_eq!(r.or_500(), Err(AxumError("broken".to_string(), INTERNAL_SERVER_ERROR)));
    let ok: Result<u8, String> = Ok(1);
    assert_eq!(ok.or_500(), Ok(1));
}

#[test]
fn from_gives_status_500() {
    let e: AxumError = AxumError::from("oops".to_string());
    assert_eq!(e, AxumError("oops".to_string(), 500));
}

#[test]
fn into_response_sends_status_and_message() {
    let e = AxumError("nope".to_string(), 401);
    assert_eq!(e.into_response(), Reply { status: 401, body: Body::Text("nope".to_string()) });
}

#[test]
fn get_album_id_reads_the_found_row() {
    assert_eq!(get_album_id(Some("album:1".to_string())), Ok("album:1".to_string()));
    assert_eq!(get_album_id(None), Err(IdLookupError::Ignored));
}

#[test]
fn get_directory_id_needs_album_and_parent() {
    let full = Directory { name: "trips".to_string(), album: Some(id("album", "a")), parent: Some(id("directory", "p")) };
    assert_eq!(
        get_directory_id(full),
        Ok(DirectoryLookup { name: "trips".to_string(), parent: id("directory", "p"), album: id("album", "a") })
    );
    let no_album = Directory { name: "x".to_string(), album: None, parent: Some(id("directory", "p")) };
    assert_eq!(get_directory_id(no_album), Err(IdLookupError::Ignored));
    let no_parent = Directory { name: "x".to_string(), album: Some(id("album", "a")), parent: None };
    assert_eq!(get_directory_id(no_parent), Err(IdLookupError::Ignored));
}

#[test]
fn other_record_keys_are_kept_as_written() {
    let id = RecordId { table: "photo".to_string(), key: RecordKey::Other("[1, 2]".to_string()) };
    assert_eq!(id.duplicate(), RecordId { table: "photo".to_string(), key: RecordKey::Other("[1, 2]".to_string()) });
}
