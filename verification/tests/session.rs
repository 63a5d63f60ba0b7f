use mesh::client::MeshClient;
use mesh::ids::UserId;
use mesh::paths::BaseDir;
use mesh::paths::Location;
use mesh::session::ClearOutcome;
use mesh::session::MatrixSession;
use mesh::session::MeshError;
use mesh::session::OpenAction;
use mesh::session::OpenEvent;
use mesh::session::OpenStage;
use mesh::session::SaveOutcome;
use mesh::session::Session;
use mesh::session::SessionStore;
use mesh::session::StoredFile;

fn dir() -> Location {
    Location { base: BaseDir::Current, names: vec!["mesh".to_owned()] }
}

fn credentials() -> MatrixSession {
    MatrixSession {
        user_id: UserId::parse("@alice:example.org").unwrap(),
        device_id: "DEVICE".to_owned(),
        access_token: "token".to_owned(),
        refresh_token: None,
    }
}

fn session() -> Session {
    let mut session = Session::from_matrix_session(credentials());
    session.homeserver = "https://example.org".to_owned();
    session
}

#[test]
fn errors_say_what_went_wrong() {
    assert_eq!(MeshError::Sdk("x".to_owned()).message(), "matrix sdk error: x");
    assert_eq!(MeshError::ClientBuild("x".to_owned()).message(), "client build error: x");
    assert_eq!(MeshError::Io("x".to_owned()).message(), "io error: x");
    assert_eq!(MeshError::Serde("x".to_owned()).message(), "(de)serialization error: x");
    assert_eq!(MeshError::NoSession.message(), "no saved session found");
}

#[test]
fn a_session_keeps_its_credentials() {
    let fresh = Session::from_matrix_session(credentials());
    assert_eq!(fresh.homeserver, "");
    assert_eq!(fresh.into_matrix_session(), credentials());
}

#[test]
fn the_session_file_is_named() {
    assert_eq!(SessionStore::new(&dir()).path.names, vec!["mesh", "session.json"]);
}

#[test]
fn the_session_file_is_loaded() {
    let store = SessionStore::new(&dir());
    assert_eq!(store.load(StoredFile::Missing), Ok(None));
    assert_eq!(store.load(StoredFile::Holds(session())), Ok(Some(session())));
    assert_eq!(
        store.load(StoredFile::Unreadable("no".to_owned())),
        Err(MeshError::Io("no".to_owned()))
    );
    assert_eq!(
        store.load(StoredFile::Malformed("eof".to_owned())),
        Err(MeshError::Serde("eof".to_owned()))
    );
}

#[test]
fn saving_can_fail_in_two_ways() {
    let store = SessionStore::new(&dir());
    assert_eq!(store.save(SaveOutcome::Saved), Ok(()));
    assert_eq!(
        store.save(SaveOutcome::NotSerialized("a".to_owned())),
        Err(MeshError::Serde("a".to_owned()))
    );
    assert_eq!(
        store.save(SaveOutcome::NotWritten("b".to_owned())),
        Err(MeshError::Io("b".to_owned()))
    );
}

#[test]
fn clearing_a_missing_file_is_fine() {
    let store = SessionStore::new(&dir());
    assert_eq!(store.clear(ClearOutcome::Missing), Ok(()));
    assert_eq!(store.clear(ClearOutcome::Removed), Ok(()));
    assert_eq!(
        store.clear(ClearOutcome::NotRemoved("c".to_owned())),
        Err(MeshError::Io("c".to_owned()))
    );
}

#[test]
fn only_a_readable_session_counts_as_saved() {
    assert!(MeshClient::has_saved_session(&dir(), StoredFile::Holds(session())));
    assert!(!MeshClient::has_saved_session(&dir(), StoredFile::Missing));
    assert!(!MeshClient::has_saved_session(&dir(), StoredFile::Malformed("x".to_owned())));
}

#[test]
fn a_login_is_saved_and_restored() {
    let (opening, action) =
        MeshClient::login_with_password("https://example.org", "alice", "pw", dir());
    assert_eq!(action, OpenAction::CreateDir(dir()));
    let (opening, action) = opening.step(OpenEvent::DirCreated(Ok(()))).unwrap();
    assert_eq!(
        action,
        OpenAction::BuildClient {
            homeserver: "https://example.org".to_owned(),
            store: dir().join("store"),
        }
    );
    let (opening, action) = opening.step(OpenEvent::Built(Ok(()))).unwrap();
    assert_eq!(
        action,
        OpenAction::SendLogin {
            user: "alice".to_owned(),
            password: "pw".to_owned(),
            device_name: "Mesh".to_owned(),
        }
    );
    let (opening, action) = opening.step(OpenEvent::LoggedIn(Ok(Some(credentials())))).unwrap();
    let saved = match action {
        OpenAction::Save { file, session } => {
            assert_eq!(file, SessionStore::new(&dir()));
            session
        }
        other => panic!("{other:?}"),
    };
    let (opening, action) = opening.step(OpenEvent::Saved(SaveOutcome::Saved)).unwrap();
    assert_eq!(opening.stage, OpenStage::Open);
    assert_eq!(action, OpenAction::Finish);

    let (opening, action) = MeshClient::restore(dir(), StoredFile::Holds(saved)).unwrap();
    assert!(matches!(action, OpenAction::BuildClient { .. }));
    assert_eq!(opening.homeserver, "https://example.org");
    let (opening, action) = opening.step(OpenEvent::Built(Ok(()))).unwrap();
    assert_eq!(action, OpenAction::Restore(credentials()));
    let (opening, action) = opening.step(OpenEvent::Restored(Ok(()))).unwrap();
    assert_eq!(opening.stage, OpenStage::Open);
    assert_eq!(action, OpenAction::Finish);
}

#[test]
fn every_step_of_a_login_can_fail() {
    let start = || MeshClient::login_with_password("h", "u", "p", dir()).0;
    assert_eq!(
        start().step(OpenEvent::DirCreated(Err("full".to_owned()))),
        Err(MeshError::Io("full".to_owned()))
    );
    let built = start().step(OpenEvent::DirCreated(Ok(()))).unwrap().0;
    assert_eq!(
        built.step(OpenEvent::Built(Err("url".to_owned()))),
        Err(MeshError::ClientBuild("url".to_owned()))
    );
    let sent = || {
        let built = start().step(OpenEvent::DirCreated(Ok(()))).unwrap().0;
        built.step(OpenEvent::Built(Ok(()))).unwrap().0
    };
    assert_eq!(
        sent().step(OpenEvent::LoggedIn(Err("403".to_owned()))),
        Err(MeshError::Sdk("403".to_owned()))
    );
    assert_eq!(sent().step(OpenEvent::LoggedIn(Ok(None))).unwrap().1, OpenAction::Finish);
    let saving = sent().step(OpenEvent::LoggedIn(Ok(Some(credentials())))).unwrap().0;
    assert_eq!(
        saving.step(OpenEvent::Saved(SaveOutcome::NotWritten("ro".to_owned()))),
        Err(MeshError::Io("ro".to_owned()))
    );
}

#[test]
fn nothing_is_restored_without_a_session() {
    assert_eq!(MeshClient::restore(dir(), StoredFile::Missing), Err(MeshError::NoSession));
    assert_eq!(
        MeshClient::restore(dir(), StoredFile::Malformed("x".to_owned())),
        Err(MeshError::Serde("x".to_owned()))
    );
    let (opening, _) = MeshClient::restore(dir(), StoredFile::Holds(session())).unwrap();
    let (opening, _) = opening.step(OpenEvent::Built(Ok(()))).unwrap();
    assert_eq!(
        opening.step(OpenEvent::Restored(Err("gone".to_owned()))),
        Err(MeshError::Sdk("gone".to_owned()))
    );
}

#[test]
fn logging_out_clears_the_session_file() {
    assert_eq!(MeshClient::logout_locally(&dir(), ClearOutcome::Removed), Ok(()));
    assert_eq!(
        MeshClient::logout_locally(&dir(), ClearOutcome::NotRemoved("busy".to_owned())),
        Err(MeshError::Io("busy".to_owned()))
    );
}
