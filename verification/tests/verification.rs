use mesh::events::MeshUpdate;
use mesh::events::SasEmoji;
use mesh::ids::UserId;
use mesh::verification::accepts_sas;
use mesh::verification::announce;
use mesh::verification::begin_sas;
use mesh::verification::watch_request;
use mesh::verification::watch_sas;
use mesh::verification::RequestState;
use mesh::verification::SasState;
use mesh::verification::WatchStep;

fn flow() -> String {
    "flow".to_owned()
}

fn cancelled(reason: &str) -> WatchStep {
    WatchStep::Finish(Some(MeshUpdate::VerificationCancelled {
        flow_id: flow(),
        reason: reason.to_owned(),
    }))
}

fn done() -> WatchStep {
    WatchStep::Finish(Some(MeshUpdate::VerificationDone { flow_id: flow() }))
}

#[test]
fn a_request_is_announced() {
    let user_id = UserId::parse("@bob:example.org").unwrap();
    assert_eq!(
        announce(user_id.clone(), flow()),
        MeshUpdate::VerificationRequested { user_id, flow_id: flow() }
    );
}

#[test]
fn a_request_is_followed_to_its_end() {
    assert_eq!(watch_request(&flow(), RequestState::Other), WatchStep::Watch);
    assert_eq!(
        watch_request(&flow(), RequestState::Transitioned { sas: true }),
        WatchStep::FollowSas
    );
    assert_eq!(
        watch_request(&flow(), RequestState::Transitioned { sas: false }),
        WatchStep::Finish(None)
    );
    assert_eq!(watch_request(&flow(), RequestState::Done), done());
    assert_eq!(
        watch_request(&flow(), RequestState::Cancelled("timeout".to_owned())),
        cancelled("timeout")
    );
}

#[test]
fn only_what_the_other_side_started_is_accepted() {
    assert!(accepts_sas(false));
    assert!(!accepts_sas(true));
}

#[test]
fn an_emoji_verification_starts() {
    assert_eq!(begin_sas(&flow(), None), WatchStep::Watch);
    assert_eq!(begin_sas(&flow(), Some(Ok(()))), WatchStep::Watch);
    assert_eq!(begin_sas(&flow(), Some(Err("offline".to_owned()))), cancelled("offline"));
}

#[test]
fn emojis_are_reported_once_known() {
    let emojis = vec![SasEmoji { symbol: "🐶".to_owned(), description: "Dog".to_owned() }];
    assert_eq!(
        watch_sas(&flow(), SasState::KeysExchanged { emojis: Some(emojis.clone()) }),
        WatchStep::Report(MeshUpdate::VerificationEmojis { flow_id: flow(), emojis })
    );
    assert_eq!(watch_sas(&flow(), SasState::KeysExchanged { emojis: None }), WatchStep::Watch);
    assert_eq!(watch_sas(&flow(), SasState::Other), WatchStep::Watch);
}

#[test]
fn an_emoji_verification_ends_once() {
    assert_eq!(watch_sas(&flow(), SasState::Done), done());
    assert_eq!(watch_sas(&flow(), SasState::Cancelled("no match".to_owned())), cancelled("no match"));
}
