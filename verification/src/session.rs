//! Logging in, restoring a session, and the single session file that is kept in
//! a client's data directory.

use vstd::prelude::*;
use vstd::string::*;

use crate::ids::UserId;
use crate::paths::Location;
use crate::text;

verus! {

/// What can go wrong in the client core. The texts are those of the underlying
/// errors.
#[derive(Debug, PartialEq, Eq)]
pub enum MeshError {
    Sdk(String),
    ClientBuild(String),
    Io(String),
    Serde(String),
    NoSession,
}

pub type MeshResult<T> = Result<T, MeshError>;

impl MeshError {
    /// The text of [`MeshError::message`].
    pub open spec fn message_text(&self) -> Seq<char> {
        match self {
            MeshError::Sdk(e) => "matrix sdk error: "@ + e@,
            MeshError::ClientBuild(e) => "client build error: "@ + e@,
            MeshError::Io(e) => "io error: "@ + e@,
            MeshError::Serde(e) => "(de)serialization error: "@ + e@,
            MeshError::NoSession => "no saved session found"@,
        }
    }

    /// The error for people to read.
    pub fn message(&self) -> (r: String)
        ensures
            r@ == self.message_text(),
    {
        match self {
            MeshError::Sdk(e) => text::concat2("matrix sdk error: ", e.as_str()),
            MeshError::ClientBuild(e) => text::concat2("client build error: ", e.as_str()),
            MeshError::Io(e) => text::concat2("io error: ", e.as_str()),
            MeshError::Serde(e) => text::concat2("(de)serialization error: ", e.as_str()),
            MeshError::NoSession => "no saved session found".to_owned(),
        }
    }
}

/// The session that the Matrix library logs in and out with.
#[derive(Debug, PartialEq, Eq)]
pub struct MatrixSession {
    pub user_id: UserId,
    pub device_id: String,
    pub access_token: String,
    pub refresh_token: Option<String>,
}

/// Everything needed to restore a logged-in client without re-authenticating.
#[derive(Debug, PartialEq, Eq)]
pub struct Session {
    pub homeserver: String,
    pub user_id: UserId,
    pub device_id: String,
    pub access_token: String,
    pub refresh_token: Option<String>,
}

impl Session {
    /// The part of the session that the Matrix library restores from.
    pub open spec fn credentials(&self) -> MatrixSession {
        MatrixSession {
            user_id: self.user_id,
            device_id: self.device_id,
            access_token: self.access_token,
            refresh_token: self.refresh_token,
        }
    }

    /// The session in the form that the Matrix library restores from.
    pub fn into_matrix_session(self) -> (r: MatrixSession)
        ensures
            r == self.credentials(),
    {
        MatrixSession {
            user_id: self.user_id,
            device_id: self.device_id,
            access_token: self.access_token,
            refresh_token: self.refresh_token,
        }
    }

    /// A session with these credentials whose homeserver is still to be filled
    /// in.
    pub fn from_matrix_session(session: MatrixSession) -> (r: Self)
        ensures
            r.credentials() == session,
            r.homeserver@ == Seq::<char>::empty(),
    {
        Session {
            homeserver: String::new(),
            user_id: session.user_id,
            device_id: session.device_id,
            access_token: session.access_token,
            refresh_token: session.refresh_token,
        }
    }
}

/// What was found in place of the session file.
#[derive(Debug, PartialEq, Eq)]
pub enum StoredFile {
    Missing,
    /// It could not be read.
    Unreadable(String),
    /// It does not hold a session.
    Malformed(String),
    Holds(Session),
}

/// How writing the session file went.
#[derive(Debug, PartialEq, Eq)]
pub enum SaveOutcome {
    Saved,
    /// The session could not be serialized.
    NotSerialized(String),
    /// The file could not be written.
    NotWritten(String),
}

/// How removing the session file went.
#[derive(Debug, PartialEq, Eq)]
pub enum ClearOutcome {
    /// There was no file.
    Missing,
    Removed,
    /// The file could not be removed.
    NotRemoved(String),
}

/// Reads and writes the single session file kept in a client's data directory.
#[derive(Debug, PartialEq, Eq)]
pub struct SessionStore {
    pub path: Location,
}

impl SessionStore {
    /// The store of a data directory.
    pub fn new(data_dir: &Location) -> (r: Self)
        ensures
            r.path.is_entry(*data_dir, "session.json"@),
    {
        SessionStore { path: data_dir.clone().join("session.json") }
    }

    /// The outcome of writing a session to the file.
    pub fn save(&self, outcome: SaveOutcome) -> (r: MeshResult<()>)
        ensures
            r == saved(outcome),
    {
        match outcome {
            SaveOutcome::Saved => Ok(()),
            SaveOutcome::NotSerialized(e) => Err(MeshError::Serde(e)),
            SaveOutcome::NotWritten(e) => Err(MeshError::Io(e)),
        }
    }

    /// The session in the file, `None` where there is no file.
    pub fn load(&self, file: StoredFile) -> (r: MeshResult<Option<Session>>)
        ensures
            r == loaded(file),
    {
        match file {
            StoredFile::Missing => Ok(None),
            StoredFile::Unreadable(e) => Err(MeshError::Io(e)),
            StoredFile::Malformed(e) => Err(MeshError::Serde(e)),
            StoredFile::Holds(session) => Ok(Some(session)),
        }
    }

    /// The outcome of removing the file: a missing one is as good as removed.
    pub fn clear(&self, outcome: ClearOutcome) -> (r: MeshResult<()>)
        ensures
            r == cleared(outcome),
    {
        match outcome {
            ClearOutcome::Missing | ClearOutcome::Removed => Ok(()),
            ClearOutcome::NotRemoved(e) => Err(MeshError::Io(e)),
        }
    }
}

/// What saving comes to.
pub open spec fn saved(outcome: SaveOutcome) -> MeshResult<()> {
    match outcome {
        SaveOutcome::Saved => Ok(()),
        SaveOutcome::NotSerialized(e) => Err(MeshError::Serde(e)),
        SaveOutcome::NotWritten(e) => Err(MeshError::Io(e)),
    }
}

/// What loading comes to.
pub open spec fn loaded(file: StoredFile) -> MeshResult<Option<Session>> {
    match file {
        StoredFile::Missing => Ok(None),
        StoredFile::Unreadable(e) => Err(MeshError::Io(e)),
        StoredFile::Malformed(e) => Err(MeshError::Serde(e)),
        StoredFile::Holds(session) => Ok(Some(session)),
    }
}

/// What removing comes to.
pub open spec fn cleared(outcome: ClearOutcome) -> MeshResult<()> {
    match outcome {
        ClearOutcome::NotRemoved(e) => Err(MeshError::Io(e)),
        _ => Ok(()),
    }
}

// ---------------------------------------------------------------------------
// Opening a client

/// What opening a client waits for.
#[derive(Debug, PartialEq, Eq)]
pub enum OpenStage {
    /// The data directory is being created.
    CreatingDir { user: String, password: String },
    /// The client is being built, to log in.
    BuildingForLogin { user: String, password: String },
    /// The login request is under way.
    LoggingIn,
    /// The new session is being saved.
    Saving,
    /// The client is being built, to restore a session.
    BuildingForRestore(MatrixSession),
    /// The session is being handed to the client.
    Restoring,
    /// The client is ready.
    Open,
}

/// A client that is being opened, by logging in or by restoring a session.
#[derive(Debug, PartialEq, Eq)]
pub struct Opening {
    pub homeserver: String,
    pub data_dir: Location,
    pub stage: OpenStage,
}

/// Outside work for opening a client.
#[derive(Debug, PartialEq, Eq)]
pub enum OpenAction {
    CreateDir(Location),
    /// Build a client for the homeserver with its store in this directory.
    BuildClient { homeserver: String, store: Location },
    SendLogin { user: String, password: String, device_name: String },
    Save { file: SessionStore, session: Session },
    Restore(MatrixSession),
    /// Nothing: the client is ready.
    Finish,
}

/// How a piece of outside work went.
#[derive(Debug, PartialEq, Eq)]
pub enum OpenEvent {
    DirCreated(Result<(), String>),
    Built(Result<(), String>),
    /// The login succeeded, with the session it brought if any, or failed.
    LoggedIn(Result<Option<MatrixSession>, String>),
    Saved(SaveOutcome),
    Restored(Result<(), String>),
}

/// The event reports on the work that the stage waits for.
pub open spec fn open_event_fits(stage: OpenStage, event: OpenEvent) -> bool {
    match stage {
        OpenStage::CreatingDir { .. } => event is DirCreated,
        OpenStage::BuildingForLogin { .. } => event is Built,
        OpenStage::LoggingIn => event is LoggedIn,
        OpenStage::Saving => event is Saved,
        OpenStage::BuildingForRestore(_) => event is Built,
        OpenStage::Restoring => event is Restored,
        OpenStage::Open => false,
    }
}

/// What [`Opening::step`] does.
pub open spec fn open_step_post(
    o: Opening,
    event: OpenEvent,
    r: MeshResult<(Opening, OpenAction)>,
) -> bool {
    match event {
        OpenEvent::DirCreated(Err(e)) => r == Err::<(Opening, OpenAction), _>(MeshError::Io(e)),
        OpenEvent::DirCreated(Ok(_)) => {
            &&& o.stage matches OpenStage::CreatingDir { user, password }
            &&& r matches Ok((next, OpenAction::BuildClient { homeserver, store }))
            &&& next == (Opening { stage: OpenStage::BuildingForLogin { user, password }, ..o })
            &&& homeserver == o.homeserver
            &&& store.is_entry(o.data_dir, "store"@)
        },
        OpenEvent::Built(Err(e)) => r == Err::<(Opening, OpenAction), _>(
            MeshError::ClientBuild(e),
        ),
        OpenEvent::Built(Ok(_)) => match o.stage {
            OpenStage::BuildingForLogin { user: u, password: p } => {
                &&& r matches Ok((next, OpenAction::SendLogin { user, password, device_name }))
                &&& next == (Opening { stage: OpenStage::LoggingIn, ..o })
                &&& user == u && password == p && device_name@ == "Mesh"@
            },
            OpenStage::BuildingForRestore(session) => r == Ok::<_, MeshError>(
                (Opening { stage: OpenStage::Restoring, ..o }, OpenAction::Restore(session)),
            ),
            _ => false,
        },
        OpenEvent::LoggedIn(Err(e)) => r == Err::<(Opening, OpenAction), _>(MeshError::Sdk(e)),
        OpenEvent::LoggedIn(Ok(None)) => r == Ok::<_, MeshError>(
            (Opening { stage: OpenStage::Open, ..o }, OpenAction::Finish),
        ),
        OpenEvent::LoggedIn(Ok(Some(credentials))) => {
            &&& r matches Ok((next, OpenAction::Save { file, session }))
            &&& next == (Opening { stage: OpenStage::Saving, ..o })
            &&& file.path.is_entry(o.data_dir, "session.json"@)
            &&& session.credentials() == credentials && session.homeserver == o.homeserver
        },
        OpenEvent::Saved(outcome) => match saved(outcome) {
            Ok(_) => r == Ok::<_, MeshError>(
                (Opening { stage: OpenStage::Open, ..o }, OpenAction::Finish),
            ),
            Err(e) => r == Err::<(Opening, OpenAction), _>(e),
        },
        OpenEvent::Restored(Err(e)) => r == Err::<(Opening, OpenAction), _>(MeshError::Sdk(e)),
        OpenEvent::Restored(Ok(_)) => r == Ok::<_, MeshError>(
            (Opening { stage: OpenStage::Open, ..o }, OpenAction::Finish),
        ),
    }
}

/// What starting to restore comes to, given what was found in place of the
/// session file.
pub open spec fn restore_post(
    data_dir: Location,
    file: StoredFile,
    r: MeshResult<(Opening, OpenAction)>,
) -> bool {
    match loaded(file) {
        Err(e) => r == Err::<(Opening, OpenAction), _>(e),
        Ok(None) => r == Err::<(Opening, OpenAction), _>(MeshError::NoSession),
        Ok(Some(session)) => {
            &&& r matches Ok((o, OpenAction::BuildClient { homeserver, store }))
            &&& o == (Opening {
                homeserver: session.homeserver,
                data_dir,
                stage: OpenStage::BuildingForRestore(session.credentials()),
            })
            &&& homeserver == session.homeserver
            &&& store.is_entry(data_dir, "store"@)
        },
    }
}

/// What starting to log in comes to.
pub open spec fn login_post(
    homeserver: Seq<char>,
    user: Seq<char>,
    password: Seq<char>,
    data_dir: Location,
    r: (Opening, OpenAction),
) -> bool {
    &&& r.0.homeserver@ == homeserver
    &&& r.0.data_dir == data_dir
    &&& r.0.stage matches OpenStage::CreatingDir { user: u, password: p } && u@ == user && p@
        == password
    &&& r.1 matches OpenAction::CreateDir(dir) && dir.base == data_dir.base && dir.names@
        == data_dir.names@
}

/// The file holds a session.
pub open spec fn holds_session(file: StoredFile) -> bool {
    file is Holds
}

impl Opening {
    /// Advances by the outcome of the work that is waited for. Logging in
    /// creates the data directory, builds the client, sends the login and saves
    /// the session it brought; restoring builds the client and hands it the
    /// saved session. The first failure ends it.
    pub fn step(self, event: OpenEvent) -> (r: MeshResult<(Opening, OpenAction)>)
        requires
            open_event_fits(self.stage, event),
        ensures
            open_step_post(self, event, r),
            r matches Ok((o, action)) ==> o.data_dir == self.data_dir && o.homeserver
                == self.homeserver,
    {
        let homeserver = self.homeserver;
        let data_dir = self.data_dir;
        match event {
            OpenEvent::DirCreated(Err(e)) => Err(MeshError::Io(e)),
            OpenEvent::DirCreated(Ok(_)) => match self.stage {
                OpenStage::CreatingDir { user, password } => {
                    let action = OpenAction::BuildClient {
                        homeserver: homeserver.clone(),
                        store: data_dir.clone().join("store"),
                    };
                    let stage = OpenStage::BuildingForLogin { user, password };
                    Ok((Opening { homeserver, data_dir, stage }, action))
                },
                _ => vstd::pervasive::unreached(),
            },
            OpenEvent::Built(Err(e)) => Err(MeshError::ClientBuild(e)),
            OpenEvent::Built(Ok(_)) => match self.stage {
                OpenStage::BuildingForLogin { user, password } => {
                    let action = OpenAction::SendLogin {
                        user,
                        password,
                        device_name: "Mesh".to_owned(),
                    };
                    Ok((Opening { homeserver, data_dir, stage: OpenStage::LoggingIn }, action))
                },
                OpenStage::BuildingForRestore(session) => Ok(
                    (
                        Opening { homeserver, data_dir, stage: OpenStage::Restoring },
                        OpenAction::Restore(session),
                    ),
                ),
                _ => vstd::pervasive::unreached(),
            },
            OpenEvent::LoggedIn(Err(e)) => Err(MeshError::Sdk(e)),
            OpenEvent::LoggedIn(Ok(None)) => Ok(
                (Opening { homeserver, data_dir, stage: OpenStage::Open }, OpenAction::Finish),
            ),
            OpenEvent::LoggedIn(Ok(Some(credentials))) => {
                let mut session = Session::from_matrix_session(credentials);
                session.homeserver = homeserver.clone();
                let file = SessionStore::new(&data_dir);
                Ok(
                    (
                        Opening { homeserver, data_dir, stage: OpenStage::Saving },
                        OpenAction::Save { file, session },
                    ),
                )
            },
            OpenEvent::Saved(outcome) => match SessionStore::new(&data_dir).save(outcome) {
                Ok(_) => Ok(
                    (Opening { homeserver, data_dir, stage: OpenStage::Open }, OpenAction::Finish),
                ),
                Err(e) => Err(e),
            },
            OpenEvent::Restored(Err(e)) => Err(MeshError::Sdk(e)),
            OpenEvent::Restored(Ok(_)) => Ok(
                (Opening { homeserver, data_dir, stage: OpenStage::Open }, OpenAction::Finish),
            ),
        }
    }
}

// ---------------------------------------------------------------------------
// Laws

/// Restoring brings back what logging in saved: the session that a login saves,
/// read back from the file, is restored with the login's homeserver and
/// credentials.
pub proof fn restore_brings_back_login(
    login: Opening,
    credentials: MatrixSession,
    saving: MeshResult<(Opening, OpenAction)>,
    restoring: MeshResult<(Opening, OpenAction)>,
    restored: MeshResult<(Opening, OpenAction)>,
)
    requires
        login.stage is LoggingIn,
        open_step_post(login, OpenEvent::LoggedIn(Ok(Some(credentials))), saving),
        saving matches Ok((_, OpenAction::Save { file: _, session })) && restore_post(
            login.data_dir,
            StoredFile::Holds(session),
            restoring,
        ),
        open_step_post((restoring->Ok_0).0, OpenEvent::Built(Ok(())), restored),
    ensures
        restoring matches Ok((o, OpenAction::BuildClient { homeserver, .. })) && homeserver
            == login.homeserver,
        restored matches Ok((_, OpenAction::Restore(c))) && c == credentials,
{
}

/// What a session is restored with is its own: the user, the device and both tokens.
pub proof fn credentials_are_those_of_the_session(session: Session)
    ensures
        session.credentials().user_id == session.user_id,
        session.credentials().device_id == session.device_id,
        session.credentials().access_token == session.access_token,
        session.credentials().refresh_token == session.refresh_token,
{
}

/// An error's text says what went wrong and ends with the cause.
pub proof fn an_error_tells_its_cause(cause: String)
    ensures
        MeshError::Sdk(cause).message_text() == "matrix sdk error: "@ + cause@,
        MeshError::ClientBuild(cause).message_text() == "client build error: "@ + cause@,
        MeshError::Io(cause).message_text() == "io error: "@ + cause@,
        MeshError::Serde(cause).message_text() == "(de)serialization error: "@ + cause@,
        MeshError::NoSession.message_text() == "no saved session found"@,
{
}

/// A session is loaded exactly if the file holds it, and as the file holds it. A missing
/// file is no error; one that cannot be read or understood is, with the reason.
pub proof fn a_session_is_loaded_as_it_was_saved(file: StoredFile, session: Session)
    ensures
        loaded(file) == Ok::<Option<Session>, MeshError>(Some(session)) <==> file
            == StoredFile::Holds(session),
        loaded(file) == Ok::<Option<Session>, MeshError>(None) <==> file is Missing,
        file matches StoredFile::Unreadable(why) ==> loaded(file) == Err::<Option<Session>, _>(
            MeshError::Io(why),
        ),
        file matches StoredFile::Malformed(why) ==> loaded(file) == Err::<Option<Session>, _>(
            MeshError::Serde(why),
        ),
{
}

/// Saving works out exactly if the file was written, and forgetting exactly if no file
/// is left; otherwise there is an error with the reason.
pub proof fn saving_and_forgetting_tell_how_it_went(save: SaveOutcome, clear: ClearOutcome)
    ensures
        saved(save) is Ok <==> save is Saved,
        save matches SaveOutcome::NotSerialized(why) ==> saved(save) == Err::<(), _>(
            MeshError::Serde(why),
        ),
        save matches SaveOutcome::NotWritten(why) ==> saved(save) == Err::<(), _>(
            MeshError::Io(why),
        ),
        cleared(clear) is Ok <==> clear is Missing || clear is Removed,
        clear matches ClearOutcome::NotRemoved(why) ==> cleared(clear) == Err::<(), _>(
            MeshError::Io(why),
        ),
{
}

/// A login builds the client for the homeserver that was given, with its store below the
/// data directory; it sends the user and the password that were given; and what it saves,
/// into the session file of that directory, is the session that the login brought.
pub proof fn a_login_sends_what_was_given(
    start: Opening,
    name: String,
    secret: String,
    building: MeshResult<(Opening, OpenAction)>,
    sending: MeshResult<(Opening, OpenAction)>,
    brought: MatrixSession,
    saving: MeshResult<(Opening, OpenAction)>,
    done: MeshResult<(Opening, OpenAction)>,
)
    requires
        start.stage == (OpenStage::CreatingDir { user: name, password: secret }),
        open_step_post(start, OpenEvent::DirCreated(Ok(())), building),
        open_step_post((building->Ok_0).0, OpenEvent::Built(Ok(())), sending),
        open_step_post((sending->Ok_0).0, OpenEvent::LoggedIn(Ok(Some(brought))), saving),
        open_step_post((saving->Ok_0).0, OpenEvent::Saved(SaveOutcome::Saved), done),
    ensures
        building matches Ok((_, OpenAction::BuildClient { homeserver, store })) && homeserver
            == start.homeserver && store.base == start.data_dir.base && text::texts(store.names@)
            == text::texts(start.data_dir.names@).push("store"@),
        sending matches Ok((_, OpenAction::SendLogin { user, password, device_name })) && user
            == name && password == secret && device_name@ == "Mesh"@,
        saving matches Ok((_, OpenAction::Save { file, session })) && file.path.base
            == start.data_dir.base && text::texts(file.path.names@) == text::texts(
            start.data_dir.names@,
        ).push("session.json"@) && session.homeserver == start.homeserver && session.user_id
            == brought.user_id && session.device_id == brought.device_id && session.access_token
            == brought.access_token && session.refresh_token == brought.refresh_token,
        done matches Ok((open, OpenAction::Finish)) && open.stage is Open && open.homeserver
            == start.homeserver && open.data_dir == start.data_dir,
{
}

/// Restoring builds the client for the homeserver of the saved session, with its store
/// below the data directory, and hands it the saved user, device and tokens.
pub proof fn restoring_uses_the_saved_session(
    data_dir: Location,
    session: Session,
    restoring: MeshResult<(Opening, OpenAction)>,
    restored: MeshResult<(Opening, OpenAction)>,
    done: MeshResult<(Opening, OpenAction)>,
)
    requires
        restore_post(data_dir, StoredFile::Holds(session), restoring),
        open_step_post((restoring->Ok_0).0, OpenEvent::Built(Ok(())), restored),
        open_step_post((restored->Ok_0).0, OpenEvent::Restored(Ok(())), done),
    ensures
        restoring matches Ok((o, OpenAction::BuildClient { homeserver, store })) && homeserver
            == session.homeserver && o.homeserver == session.homeserver && o.data_dir == data_dir
            && store.base == data_dir.base && text::texts(store.names@) == text::texts(
            data_dir.names@,
        ).push("store"@),
        restored matches Ok((_, OpenAction::Restore(c))) && c.user_id == session.user_id
            && c.device_id == session.device_id && c.access_token == session.access_token
            && c.refresh_token == session.refresh_token,
        done matches Ok((open, OpenAction::Finish)) && open.stage is Open,
{
}

/// Logging in creates the data directory first, then builds the client for the homeserver
/// that was typed and sends the user and the password that were typed.
pub proof fn a_login_uses_its_arguments(
    homeserver: Seq<char>,
    user: Seq<char>,
    password: Seq<char>,
    data_dir: Location,
    start: (Opening, OpenAction),
    building: MeshResult<(Opening, OpenAction)>,
    sending: MeshResult<(Opening, OpenAction)>,
)
    requires
        login_post(homeserver, user, password, data_dir, start),
        open_step_post(start.0, OpenEvent::DirCreated(Ok(())), building),
        open_step_post((building->Ok_0).0, OpenEvent::Built(Ok(())), sending),
    ensures
        start.1 matches OpenAction::CreateDir(dir) && dir.base == data_dir.base && dir.names@
            == data_dir.names@,
        building matches Ok((_, OpenAction::BuildClient { homeserver: url, .. })) && url@
            == homeserver,
        sending matches Ok((_, OpenAction::SendLogin { user: u, password: p, .. })) && u@ == user
            && p@ == password,
{
}

/// There is a session to restore exactly if restoring finds one.
pub proof fn a_saved_session_can_be_restored(
    data_dir: Location,
    file: StoredFile,
    r: MeshResult<(Opening, OpenAction)>,
)
    requires
        restore_post(data_dir, file, r),
    ensures
        holds_session(file) <==> r is Ok,
{
}

/// Without a session file there is nothing to restore, and a broken one tells why.
pub proof fn nothing_is_restored_without_a_session(
    data_dir: Location,
    file: StoredFile,
    r: MeshResult<(Opening, OpenAction)>,
)
    requires
        restore_post(data_dir, file, r),
    ensures
        r is Ok <==> file is Holds,
        file is Missing ==> r == Err::<(Opening, OpenAction), _>(MeshError::NoSession),
        file matches StoredFile::Unreadable(why) ==> r == Err::<(Opening, OpenAction), _>(
            MeshError::Io(why),
        ),
        file matches StoredFile::Malformed(why) ==> r == Err::<(Opening, OpenAction), _>(
            MeshError::Serde(why),
        ),
{
}

/// The first failure ends the opening, with its reason; nothing else does.
pub proof fn the_first_failure_ends_the_opening(
    o: Opening,
    event: OpenEvent,
    r: MeshResult<(Opening, OpenAction)>,
)
    requires
        open_event_fits(o.stage, event),
        open_step_post(o, event, r),
    ensures
        event matches OpenEvent::DirCreated(Err(why)) ==> r == Err::<(Opening, OpenAction), _>(
            MeshError::Io(why),
        ),
        event matches OpenEvent::Built(Err(why)) ==> r == Err::<(Opening, OpenAction), _>(
            MeshError::ClientBuild(why),
        ),
        event matches OpenEvent::LoggedIn(Err(why)) ==> r == Err::<(Opening, OpenAction), _>(
            MeshError::Sdk(why),
        ),
        event matches OpenEvent::Restored(Err(why)) ==> r == Err::<(Opening, OpenAction), _>(
            MeshError::Sdk(why),
        ),
        event matches OpenEvent::Saved(SaveOutcome::NotSerialized(why)) ==> r == Err::<
            (Opening, OpenAction),
            _,
        >(MeshError::Serde(why)),
        event matches OpenEvent::Saved(SaveOutcome::NotWritten(why)) ==> r == Err::<
            (Opening, OpenAction),
            _,
        >(MeshError::Io(why)),
        event == OpenEvent::DirCreated(Ok(())) || event == OpenEvent::Built(Ok(())) || event
            == OpenEvent::Restored(Ok(())) || event == OpenEvent::Saved(SaveOutcome::Saved) || (event
            matches OpenEvent::LoggedIn(Ok(_))) ==> r is Ok,
        event == OpenEvent::LoggedIn(Ok(None)) ==> (r matches Ok((open, OpenAction::Finish))
            && open.stage is Open),
{
}

} // verus!
