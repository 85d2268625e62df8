use suisai::controllers;
use suisai::endpoints;
use suisai::handler::{Action, Event, Handler, Operation};
use suisai::models::album::Album;
use suisai::models::auth::User;
use suisai::models::directory::{Directory, DirectoryReturn, DirectoryWrapper};
use suisai::models::file::{File, FileWrapper};
use suisai::models::photo::Photo;
use suisai::models::thing::{RecordId, RecordKey};
use suisai::reply::{Body, Reply};

fn id(table: &str, key: &str) -> RecordId {
    RecordId { table: table.to_string(), key: RecordKey::Text(key.to_string()) }
}

fn album(label: &str, path: &str, id: Option<RecordId>) -> Album {
    Album { label: label.to_string(), path: path.to_string(), owner: None, id }
}

fn text(status: u16, s: &str) -> Action {
    Action::Reply(Reply { status, body: Body::Text(s.to_string()) })
}

fn authenticate(token: &str) -> Action {
    Action::Perform(Operation::Authenticate { token: token.to_string() })
}

/// Feeds the events to the handler, checking that each is admitted, and
/// returns the actions it asked for after the first.
fn run(mut h: Handler, events: Vec<Event>) -> (Handler, Vec<Action>) {
    let mut actions = Vec::new();
    for e in events {
        assert!(h.accepts(&e), "event not admitted: {:?}", e);
        let (next, a) = h.step(e);
        h = next;
        actions.push(a);
    }
    (h, actions)
}

#[test]
fn endpoint_create_album_answers_the_new_id() {
    let (h, first) = endpoints::album::create_album("tok".to_string(), album("Trips", "/trips", None));
    assert_eq!(first, authenticate("tok"));
    let (h, actions) = run(h, vec![
        Event::Authenticated(id("user", "abc")),
        Event::Done,
        Event::Id("album:1".to_string()),
        Event::Done,
    ]);
    assert_eq!(actions, vec![
        Action::Perform(Operation::CreateAlbum {
            album: Album {
                label: "Trips".to_string(),
                path: "/trips".to_string(),
                owner: Some(id("user", "abc")),
                id: None,
            },
        }),
        Action::Perform(Operation::AlbumId { path: "/trips".to_string() }),
        Action::Perform(Operation::Invalidate),
        text(200, "album:1"),
    ]);
    assert!(!h.accepts(&Event::Done));
}

#[test]
fn a_refused_token_is_answered_401_and_nothing_else_happens() {
    let (h, _) = endpoints::album::create_album("bad".to_string(), album("Trips", "/trips", None));
    let (h, actions) = run(h, vec![Event::Failed("There was a problem with authentication".to_string())]);
    assert_eq!(actions, vec![text(401, "There was a problem with authentication")]);
    assert!(!h.accepts(&Event::Done));
    assert!(!h.accepts(&Event::Failed("x".to_string())));
}

#[test]
fn endpoint_create_album_conflict_is_409() {
    let (h, _) = endpoints::album::create_album("tok".to_string(), album("Trips", "/trips", None));
    let (_, actions) = run(h, vec![
        Event::Authenticated(id("user", "abc")),
        Event::Failed("Database record `album:1` already exists".to_string()),
    ]);
    assert_eq!(actions[1], text(409, "Database record `album:1` already exists"));
}

#[test]
fn endpoint_create_album_gives_up_when_the_session_cannot_end() {
    let (h, _) = endpoints::album::create_album("tok".to_string(), album("Trips", "/trips", None));
    let (h, _) = run(h, vec![
        Event::Authenticated(id("user", "abc")),
        Event::Done,
        Event::Id("album:1".to_string()),
    ]);
    assert!(!h.accepts(&Event::Failed("closed".to_string())));
    assert!(h.accepts(&Event::Done));
}

#[test]
fn controller_create_album_ends_the_session_before_answering_a_conflict() {
    let (h, _) = controllers::album::create_album("tok".to_string(), album("Trips", "/trips", None));
    let (h, actions) = run(h, vec![
        Event::Authenticated(id("user", "abc")),
        Event::Failed("exists".to_string()),
    ]);
    assert_eq!(actions[1], Action::Perform(Operation::Invalidate));
    assert!(!h.accepts(&Event::Failed("closed".to_string())));
    let (_, actions) = run(h, vec![Event::Done]);
    assert_eq!(actions, vec![text(409, "exists")]);
}

#[test]
fn controller_create_album_lookup_failure_is_500_after_ending_the_session() {
    let (h, _) = controllers::album::create_album("tok".to_string(), album("Trips", "/trips", None));
    let (_, actions) = run(h, vec![
        Event::Authenticated(id("user", "abc")),
        Event::Done,
        Event::Failed("Conditional clause is not truthy".to_string()),
        Event::Done,
    ]);
    assert_eq!(actions[2], Action::Perform(Operation::Invalidate));
    assert_eq!(actions[3], text(500, "Conditional clause is not truthy"));
}

#[test]
fn rename_album_answers_meow() {
    let (h, first) = endpoints::album::rename_album("tok".to_string(), album("New", "", Some(id("album", "1"))));
    assert_eq!(first, authenticate("tok"));
    let (_, actions) = run(h, vec![Event::Authenticated(id("user", "abc")), Event::Done, Event::Done]);
    assert_eq!(actions, vec![
        Action::Perform(Operation::RenameAlbum { id: Some(id("album", "1")), label: "New".to_string() }),
        Action::Perform(Operation::Invalidate),
        text(200, "meow"),
    ]);
}

#[test]
fn endpoint_rename_album_answers_a_failed_session_end_with_500() {
    let (h, _) = endpoints::album::rename_album("tok".to_string(), album("New", "", Some(id("album", "1"))));
    let (_, actions) = run(h, vec![
        Event::Authenticated(id("user", "abc")),
        Event::Done,
        Event::Failed("closed".to_string()),
    ]);
    assert_eq!(actions[2], text(500, "closed"));
}

#[test]
fn controller_rename_album_failure_is_500_without_ending_the_session() {
    let (h, _) = controllers::album::rename_album("tok".to_string(), album("New", "", None));
    let (_, actions) = run(h, vec![Event::Authenticated(id("user", "abc")), Event::Failed("bad".to_string())]);
    assert_eq!(actions[1], text(500, "bad"));
}

#[test]
fn get_albums_answers_the_albums() {
    let albums = vec![Album {
        label: "Trips".to_string(),
        path: "/trips".to_string(),
        owner: Some(id("user", "abc")),
        id: Some(id("album", "1")),
    }];
    let (h, _) = endpoints::album::get_albums("tok".to_string());
    let (_, actions) = run(h, vec![
        Event::Authenticated(id("user", "abc")),
        Event::Albums(albums),
        Event::Done,
    ]);
    assert_eq!(actions[0], Action::Perform(Operation::SelectAlbums));
    assert_eq!(actions[1], Action::Perform(Operation::Invalidate));
    match &actions[2] {
        Action::Reply(Reply { status: 200, body: Body::Albums(v) }) => assert_eq!(v.len(), 1),
        other => panic!("unexpected {:?}", other),
    }
}

#[test]
fn controller_get_albums_failure_ends_the_session_then_answers_500() {
    let (h, _) = controllers::album::get_albums("tok".to_string());
    let (_, actions) = run(h, vec![
        Event::Authenticated(id("user", "abc")),
        Event::Failed("read".to_string()),
        Event::Done,
    ]);
    assert_eq!(actions[1], Action::Perform(Operation::Invalidate));
    assert_eq!(actions[2], text(500, "read"));
}

#[test]
fn delete_album_without_id_is_given_up_after_authentication() {
    let (h, _) = endpoints::album::delete_album("tok".to_string(), album("", "", None));
    assert!(!h.accepts(&Event::Authenticated(id("user", "abc"))));
    assert!(h.accepts(&Event::Failed("refused".to_string())));
    let (h, _) = controllers::album::delete_album("tok".to_string(), album("", "", None));
    assert!(!h.accepts(&Event::Authenticated(id("user", "abc"))));
}

#[test]
fn delete_album_deletes_then_ends_the_session() {
    let (h, _) = endpoints::album::delete_album("tok".to_string(), album("", "", Some(id("album", "1"))));
    let (_, actions) = run(h, vec![Event::Authenticated(id("user", "abc")), Event::Done, Event::Done]);
    assert_eq!(actions, vec![
        Action::Perform(Operation::DeleteAlbum { id: id("album", "1") }),
        Action::Perform(Operation::Invalidate),
        text(200, "meow"),
    ]);
}

#[test]
fn controller_delete_album_failure_is_500_after_ending_the_session() {
    let (h, _) = controllers::album::delete_album("tok".to_string(), album("", "", Some(id("album", "1"))));
    let (_, actions) = run(h, vec![
        Event::Authenticated(id("user", "abc")),
        Event::Failed("gone".to_string()),
        Event::Done,
    ]);
    assert_eq!(actions[1], Action::Perform(Operation::Invalidate));
    assert_eq!(actions[2], text(500, "gone"));
}

#[test]
fn get_photos_answers_the_photos() {
    let photos = vec![Photo {
        label: "Sea".to_string(),
        path: "/sea.jpg".to_string(),
        date: "2024-01-01".to_string(),
        tags: vec!["blue".to_string()],
        id: id("photos", "1"),
    }];
    let (h, first) = endpoints::photo::get_photos("tok".to_string());
    assert_eq!(first, authenticate("tok"));
    let (_, actions) = run(h, vec![Event::Authenticated(id("user", "abc")), Event::Photos(photos), Event::Done]);
    assert_eq!(actions[0], Action::Perform(Operation::SelectPhotos));
    assert!(matches!(&actions[2], Action::Reply(Reply { status: 200, body: Body::Photos(v) }) if v.len() == 1));
}

fn user(email: &str, password: &str) -> User {
    User { email: email.to_string(), password: password.to_string() }
}

#[test]
fn sign_up_answers_201_with_the_token() {
    let (h, first) = endpoints::auth::create_user(user("a@b.c", "pw"));
    assert_eq!(first, Action::Perform(Operation::SignUp { credentials: user("a@b.c", "pw") }));
    let (_, actions) = run(h, vec![Event::Token("jwt".to_string()), Event::Done]);
    assert_eq!(actions, vec![Action::Perform(Operation::Invalidate), text(201, "jwt")]);
}

#[test]
fn sign_up_refused_is_409() {
    let (h, _) = endpoints::auth::create_user(user("a@b.c", "pw"));
    let (_, actions) = run(h, vec![Event::Failed("exists".to_string())]);
    assert_eq!(actions, vec![text(409, "exists")]);
}

#[test]
fn controller_sign_up_answers_the_token_as_json() {
    let (h, _) = controllers::auth::create_user(user("a@b.c", "pw"));
    let (_, actions) = run(h, vec![Event::Token("jwt".to_string()), Event::Done]);
    assert_eq!(actions[1], Action::Reply(Reply { status: 201, body: Body::TokenJson("jwt".to_string()) }));
}

#[test]
fn login_answers_200_and_refusal_401() {
    let (h, _) = endpoints::auth::login(user("a@b.c", "pw"));
    let (_, actions) = run(h, vec![Event::Token("jwt".to_string()), Event::Done]);
    assert_eq!(actions[1], text(200, "jwt"));
    let (h, _) = endpoints::auth::login(user("a@b.c", "wrong"));
    let (_, actions) = run(h, vec![Event::Failed("There was a problem with authentication".to_string())]);
    assert_eq!(actions, vec![text(401, "There was a problem with authentication")]);
}

#[test]
fn controller_login_answers_201() {
    let (h, _) = controllers::auth::login(user("a@b.c", "pw"));
    let (_, actions) = run(h, vec![Event::Token("jwt".to_string()), Event::Done]);
    assert_eq!(actions[1], Action::Reply(Reply { status: 201, body: Body::TokenJson("jwt".to_string()) }));
}

#[test]
fn a_failed_session_end_after_sign_in_is_500() {
    let (h, _) = controllers::auth::login(user("a@b.c", "pw"));
    let (_, actions) = run(h, vec![Event::Token("jwt".to_string()), Event::Failed("closed".to_string())]);
    assert_eq!(actions[1], text(500, "closed"));
}

#[test]
fn update_credentials_changes_what_is_given() {
    let (h, _) = endpoints::auth::update_credentials("tok".to_string(), user("new@b.c", "secret"));
    let (_, actions) = run(h, vec![Event::Authenticated(id("user", "abc")), Event::Done, Event::Done, Event::Done]);
    assert_eq!(actions, vec![
        Action::Perform(Operation::UpdateEmail { user: id("user", "abc"), email: "new@b.c".to_string() }),
        Action::Perform(Operation::UpdatePassword { user: id("user", "abc"), password: "secret".to_string() }),
        Action::Perform(Operation::Invalidate),
        text(201, "meow"),
    ]);
}

#[test]
fn update_credentials_skips_empty_fields() {
    let (h, _) = endpoints::auth::update_credentials("tok".to_string(), user("", "secret"));
    let (_, actions) = run(h, vec![Event::Authenticated(id("user", "abc")), Event::Done, Event::Done]);
    assert_eq!(actions[0], Action::Perform(Operation::UpdatePassword {
        user: id("user", "abc"),
        password: "secret".to_string(),
    }));
    let (h, _) = controllers::auth::update_credentials("tok".to_string(), user("", ""));
    let (_, actions) = run(h, vec![Event::Authenticated(id("user", "abc")), Event::Done]);
    assert_eq!(actions, vec![Action::Perform(Operation::Invalidate), text(201, "meow")]);
}

#[test]
fn update_credentials_failure_is_500_or_given_up() {
    let (h, _) = endpoints::auth::update_credentials("tok".to_string(), user("x@y.z", ""));
    let (_, actions) = run(h, vec![Event::Authenticated(id("user", "abc")), Event::Failed("bad".to_string())]);
    assert_eq!(actions[1], text(500, "bad"));
    let (h, _) = controllers::auth::update_credentials("tok".to_string(), user("x@y.z", ""));
    let (h, _) = run(h, vec![Event::Authenticated(id("user", "abc"))]);
    assert!(!h.accepts(&Event::Failed("bad".to_string())));
}

fn directory(name: &str) -> Directory {
    Directory { name: name.to_string(), album: Some(id("album", "1")), parent: Some(id("directory", "root")) }
}

#[test]
fn create_directory_answers_the_new_id() {
    let (h, _) = controllers::directory::create_directory("tok".to_string(), directory("trips"));
    let (_, actions) = run(h, vec![
        Event::Authenticated(id("user", "abc")),
        Event::Done,
        Event::Id("directory:9".to_string()),
    ]);
    assert_eq!(actions, vec![
        Action::Perform(Operation::CreateDirectory { directory: directory("trips") }),
        Action::Perform(Operation::DirectoryId { directory: directory("trips") }),
        text(200, "directory:9"),
    ]);
}

#[test]
fn create_directory_conflict_is_409() {
    let (h, _) = controllers::directory::create_directory("tok".to_string(), directory("trips"));
    let (_, actions) = run(h, vec![Event::Authenticated(id("user", "abc")), Event::Failed("exists".to_string())]);
    assert_eq!(actions[1], text(409, "exists"));
}

#[test]
fn query_directory_answers_the_directory() {
    let (h, _) = controllers::directory::query_directory("tok".to_string(), id("directory", "root"));
    let found = DirectoryWrapper { directory: directory("root"), id: id("directory", "root") };
    let (_, actions) = run(h, vec![Event::Authenticated(id("user", "abc")), Event::Directory(found)]);
    assert_eq!(actions[0], Action::Perform(Operation::SelectDirectory { key: RecordKey::Text("root".to_string()) }));
    assert_eq!(actions[1], Action::Reply(Reply {
        status: 200,
        body: Body::Directory(DirectoryWrapper { directory: directory("root"), id: id("directory", "root") }),
    }));
}

#[test]
fn query_subdirectory_answers_the_listing() {
    let (h, _) = controllers::directory::query_subdirectory("tok".to_string(), id("directory", "root"));
    let dirs = vec![DirectoryWrapper { directory: directory("a"), id: id("directory", "a") }];
    let files = vec![FileWrapper {
        file: File { directory: directory("f.jpg"), thumbnail: "t".to_string() },
        id: id("file", "f"),
    }];
    let (_, actions) = run(h, vec![
        Event::Authenticated(id("user", "abc")),
        Event::Done,
        Event::Directories(dirs),
        Event::Files(files),
    ]);
    assert_eq!(actions[0], Action::Perform(Operation::QueryChildren { parent: id("directory", "root") }));
    assert_eq!(actions[1], Action::Perform(Operation::TakeDirectories));
    assert_eq!(actions[2], Action::Perform(Operation::TakeFiles));
    match &actions[3] {
        Action::Reply(Reply { status: 200, body: Body::Listing(DirectoryReturn { directories, files }) }) => {
            assert_eq!(directories.len(), 1);
            assert_eq!(files.len(), 1);
        },
        other => panic!("unexpected {:?}", other),
    }
}

#[test]
fn query_subdirectory_take_failure_is_500() {
    let (h, _) = controllers::directory::query_subdirectory("tok".to_string(), id("directory", "root"));
    let (_, actions) = run(h, vec![Event::Authenticated(id("user", "abc")), Event::Done, Event::Failed("shape".to_string())]);
    assert_eq!(actions[2], text(500, "shape"));
}

#[test]
fn delete_and_relocate_directory() {
    let w = DirectoryWrapper { directory: directory("a"), id: id("directory", "a") };
    let (h, _) = controllers::directory::delete_directory("tok".to_string(), w);
    let (_, actions) = run(h, vec![Event::Authenticated(id("user", "abc")), Event::Done]);
    assert_eq!(actions, vec![
        Action::Perform(Operation::DeleteDirectoryTree { id: id("directory", "a") }),
        text(200, "meow"),
    ]);
    let w = DirectoryWrapper { directory: directory("a"), id: id("directory", "a") };
    let (h, _) = controllers::directory::relocate_directory("tok".to_string(), w);
    let (_, actions) = run(h, vec![Event::Authenticated(id("user", "abc")), Event::Failed("no".to_string())]);
    assert_eq!(actions, vec![
        Action::Perform(Operation::Relocate {
            id: id("directory", "a"),
            new_parent: Some(id("directory", "root")),
            new_album: Some(id("album", "1")),
        }),
        text(500, "no"),
    ]);
}

#[test]
fn files_are_created_deleted_and_moved() {
    let f = File { directory: directory("f.jpg"), thumbnail: "t".to_string() };
    let (h, _) = controllers::file::create_file("tok".to_string(), f);
    let (_, actions) = run(h, vec![Event::Authenticated(id("user", "abc")), Event::Done, Event::Id("file:1".to_string())]);
    assert_eq!(actions[2], text(200, "file:1"));
    let w = FileWrapper { file: File { directory: directory("f.jpg"), thumbnail: "t".to_string() }, id: id("file", "1") };
    let (h, _) = controllers::file::delete_file("tok".to_string(), w);
    let (_, actions) = run(h, vec![Event::Authenticated(id("user", "abc")), Event::Failed("locked".to_string())]);
    assert_eq!(actions, vec![Action::Perform(Operation::DeleteFile { id: id("file", "1") }), text(500, "locked")]);
    let w = FileWrapper { file: File { directory: directory("f.jpg"), thumbnail: "t".to_string() }, id: id("file", "1") };
    let (h, _) = controllers::file::relocate_file("tok".to_string(), w);
    let (_, actions) = run(h, vec![Event::Authenticated(id("user", "abc")), Event::Done]);
    assert_eq!(actions[1], text(200, "meow"));
}

#[test]
fn a_wrong_kind_of_success_is_not_admitted() {
    let (h, _) = endpoints::album::get_albums("tok".to_string());
    assert!(!h.accepts(&Event::Done));
    assert!(!h.accepts(&Event::Albums(vec![])));
    assert!(h.accepts(&Event::Authenticated(id("user", "abc"))));
}

#[test]
fn a_handler_asks_for_at_most_one_action_per_stage_and_one_answer() {
    let (h, _) = endpoints::auth::update_credentials("tok".to_string(), user("a@b.c", "pw"));
    let stages = h.stages_left();
    let (h, actions) = run(h, vec![
        Event::Authenticated(id("user", "abc")),
        Event::Done,
        Event::Done,
        Event::Done,
    ]);
    assert_eq!(stages, 3);
    assert!(actions.len() <= stages + 1);
    assert!(matches!(actions.last(), Some(Action::Reply(_))));
    assert!(!h.accepts(&Event::Done));
}
