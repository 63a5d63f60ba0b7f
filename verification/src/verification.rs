//! Interactive device verification (emoji SAS): what every state of a
//! verification flow means for the frontend.

use vstd::prelude::*;

use crate::events::MeshUpdate;
use crate::events::SasEmoji;
use crate::ids::UserId;

verus! {

/// The state of a verification request.
#[derive(Debug, PartialEq, Eq)]
pub enum RequestState {
    /// It turned into a verification, by emoji (`sas`) or in another way.
    Transitioned { sas: bool },
    Done,
    /// It was cancelled, for this reason.
    Cancelled(String),
    /// Created, requested or ready.
    Other,
}

/// The state of an emoji verification.
#[derive(Debug, PartialEq, Eq)]
pub enum SasState {
    /// The keys are exchanged; the emojis if both sides support them.
    KeysExchanged { emojis: Option<Vec<SasEmoji>> },
    Done,
    /// It was cancelled, for this reason.
    Cancelled(String),
    /// Started, accepted or confirmed.
    Other,
}

/// What following a verification does next.
#[derive(Debug, PartialEq, Eq)]
pub enum WatchStep {
    /// Wait for the next state.
    Watch,
    /// Tell the frontend, then wait for the next state.
    Report(MeshUpdate),
    /// Follow the emoji verification that the request turned into.
    FollowSas,
    /// Tell the frontend if there is something to tell, and stop.
    Finish(Option<MeshUpdate>),
}

/// The announcement of an incoming verification request.
pub open spec fn announcement(user_id: UserId, flow_id: String) -> MeshUpdate {
    MeshUpdate::VerificationRequested { user_id, flow_id }
}

/// Announces an incoming verification request to the frontend.
pub fn announce(user_id: UserId, flow_id: String) -> (r: MeshUpdate)
    ensures
        r == announcement(user_id, flow_id),
{
    MeshUpdate::VerificationRequested { user_id, flow_id }
}

/// What a state of a verification request leads to.
pub open spec fn request_step(flow_id: String, state: RequestState) -> WatchStep {
    match state {
        RequestState::Transitioned { sas } => if sas {
            WatchStep::FollowSas
        } else {
            WatchStep::Finish(None)
        },
        RequestState::Done => WatchStep::Finish(Some(MeshUpdate::VerificationDone { flow_id })),
        RequestState::Cancelled(reason) => WatchStep::Finish(
            Some(MeshUpdate::VerificationCancelled { flow_id, reason }),
        ),
        RequestState::Other => WatchStep::Watch,
    }
}

/// Follows a verification request until it transitions into SAS, finishes, or
/// gets cancelled.
pub fn watch_request(flow_id: &String, state: RequestState) -> (r: WatchStep)
    ensures
        r == request_step(*flow_id, state),
{
    match state {
        RequestState::Transitioned { sas } => if sas {
            WatchStep::FollowSas
        } else {
            WatchStep::Finish(None)
        },
        RequestState::Done => WatchStep::Finish(
            Some(MeshUpdate::VerificationDone { flow_id: flow_id.clone() }),
        ),
        RequestState::Cancelled(reason) => WatchStep::Finish(
            Some(MeshUpdate::VerificationCancelled { flow_id: flow_id.clone(), reason }),
        ),
        RequestState::Other => WatchStep::Watch,
    }
}

/// An emoji verification is for us to accept: the other side started it.
pub open spec fn is_ours_to_accept(we_started: bool) -> bool {
    !we_started
}

/// Whether an emoji verification is accepted before it is followed: exactly if the
/// other side started it.
pub fn accepts_sas(we_started: bool) -> (r: bool)
    ensures
        r == is_ours_to_accept(we_started),
{
    !we_started
}

/// What the start of an emoji verification leads to: `accepted` is how accepting it
/// went, `None` where it was not for us to accept.
pub open spec fn begin_step(flow_id: String, accepted: Option<Result<(), String>>) -> WatchStep {
    match accepted {
        Some(Err(reason)) => WatchStep::Finish(
            Some(MeshUpdate::VerificationCancelled { flow_id, reason }),
        ),
        _ => WatchStep::Watch,
    }
}

/// Starts following an emoji verification, which was accepted first with this outcome
/// where [`accepts_sas`] asks for that.
pub fn begin_sas(flow_id: &String, accepted: Option<Result<(), String>>) -> (r: WatchStep)
    ensures
        r == begin_step(*flow_id, accepted),
{
    match accepted {
        Some(Err(reason)) => WatchStep::Finish(
            Some(MeshUpdate::VerificationCancelled { flow_id: flow_id.clone(), reason }),
        ),
        _ => WatchStep::Watch,
    }
}

/// What a state of an emoji verification leads to.
pub open spec fn sas_step(flow_id: String, state: SasState) -> WatchStep {
    match state {
        SasState::KeysExchanged { emojis: Some(emojis) } => WatchStep::Report(
            MeshUpdate::VerificationEmojis { flow_id, emojis },
        ),
        SasState::KeysExchanged { emojis: None } => WatchStep::Watch,
        SasState::Done => WatchStep::Finish(Some(MeshUpdate::VerificationDone { flow_id })),
        SasState::Cancelled(reason) => WatchStep::Finish(
            Some(MeshUpdate::VerificationCancelled { flow_id, reason }),
        ),
        SasState::Other => WatchStep::Watch,
    }
}

/// Streams the emoji, done and cancelled states of a SAS verification to the
/// frontend.
pub fn watch_sas(flow_id: &String, state: SasState) -> (r: WatchStep)
    ensures
        r == sas_step(*flow_id, state),
{
    match state {
        SasState::KeysExchanged { emojis: Some(emojis) } => WatchStep::Report(
            MeshUpdate::VerificationEmojis { flow_id: flow_id.clone(), emojis },
        ),
        SasState::KeysExchanged { emojis: None } => WatchStep::Watch,
        SasState::Done => WatchStep::Finish(
            Some(MeshUpdate::VerificationDone { flow_id: flow_id.clone() }),
        ),
        SasState::Cancelled(reason) => WatchStep::Finish(
            Some(MeshUpdate::VerificationCancelled { flow_id: flow_id.clone(), reason }),
        ),
        SasState::Other => WatchStep::Watch,
    }
}

// ---------------------------------------------------------------------------
// Laws

/// What the frontend is told while the states of an emoji verification come in.
pub open spec fn sas_reports(flow_id: String, states: Seq<SasState>) -> Seq<MeshUpdate>
    decreases states.len(),
{
    if states.len() == 0 {
        Seq::empty()
    } else {
        match sas_step(flow_id, states[0]) {
            WatchStep::Report(update) => seq![update] + sas_reports(flow_id, states.drop_first()),
            WatchStep::Finish(Some(update)) => seq![update],
            WatchStep::Finish(None) => Seq::empty(),
            _ => sas_reports(flow_id, states.drop_first()),
        }
    }
}

/// The end of a verification.
pub open spec fn is_final(update: MeshUpdate) -> bool {
    update is VerificationDone || update is VerificationCancelled
}

/// The flow that a verification update is about.
pub open spec fn flow_of(update: MeshUpdate) -> Option<String> {
    match update {
        MeshUpdate::VerificationRequested { flow_id, .. } => Some(flow_id),
        MeshUpdate::VerificationEmojis { flow_id, .. } => Some(flow_id),
        MeshUpdate::VerificationDone { flow_id } => Some(flow_id),
        MeshUpdate::VerificationCancelled { flow_id, .. } => Some(flow_id),
        _ => None,
    }
}

/// Whatever states an emoji verification goes through, the frontend is told of
/// this flow only, and of its end at most once and last: everything before is
/// emojis to compare.
pub proof fn verification_ends_once(flow_id: String, states: Seq<SasState>)
    ensures
        forall|i: int|
            0 <= i < sas_reports(flow_id, states).len() ==> flow_of(
                #[trigger] sas_reports(flow_id, states)[i],
            ) == Some(flow_id),
        forall|i: int|
            0 <= i < sas_reports(flow_id, states).len() - 1 ==> (#[trigger] sas_reports(
                flow_id,
                states,
            )[i]) is VerificationEmojis,
        sas_reports(flow_id, states).len() > 0 ==> {
            let last = sas_reports(flow_id, states).last();
            is_final(last) || last is VerificationEmojis
        },
    decreases states.len(),
{
    if states.len() > 0 {
        verification_ends_once(flow_id, states.drop_first());
        let rest = sas_reports(flow_id, states.drop_first());
        let all = sas_reports(flow_id, states);
        if let WatchStep::Report(update) = sas_step(flow_id, states[0]) {
            assert(all =~= seq![update] + rest);
            assert forall|i: int| 0 <= i < all.len() implies flow_of(#[trigger] all[i]) == Some(
                flow_id,
            ) by {
                if i > 0 {
                    assert(all[i] == rest[i - 1]);
                }
            }
            assert forall|i: int| 0 <= i < all.len() - 1 implies (#[trigger] all[i])
                is VerificationEmojis by {
                if i > 0 {
                    assert(all[i] == rest[i - 1]);
                }
            }
            if rest.len() > 0 {
                assert(all.last() == rest.last());
            }
        }
    }
}

/// What the frontend is told of an emoji verification from its start on, where
/// accepting it, if that is for us to do, goes like this.
pub open spec fn sas_told(
    flow_id: String,
    we_started: bool,
    accepting: Result<(), String>,
    states: Seq<SasState>,
) -> Seq<MeshUpdate> {
    let accepted = if is_ours_to_accept(we_started) {
        Some(accepting)
    } else {
        None
    };
    match begin_step(flow_id, accepted) {
        WatchStep::Finish(Some(update)) => seq![update],
        WatchStep::Finish(None) => Seq::empty(),
        _ => sas_reports(flow_id, states),
    }
}

/// A verification that the other side started and that cannot be accepted is told as
/// cancelled, for the reason, and nothing else is told of it. In every other case the
/// frontend is told what the states say; how accepting would go does not matter to a
/// verification that we started.
pub proof fn a_failed_acceptance_is_all_that_is_told(
    flow_id: String,
    we_started: bool,
    accepting: Result<(), String>,
    states: Seq<SasState>,
)
    ensures
        !we_started && accepting is Err ==> sas_told(flow_id, we_started, accepting, states)
            == seq![MeshUpdate::VerificationCancelled { flow_id, reason: accepting->Err_0 }],
        we_started || accepting is Ok ==> sas_told(flow_id, we_started, accepting, states)
            == sas_reports(flow_id, states),
{
}

/// A request is announced with who asks and under which flow.
pub proof fn a_request_is_announced_as_it_came(user_id: UserId, flow_id: String)
    ensures
        announcement(user_id, flow_id) matches MeshUpdate::VerificationRequested {
            user_id: by,
            flow_id: under,
        } && by == user_id && under == flow_id,
{
}

/// Following a request tells what became of it: it is followed into the emoji comparison,
/// told as done or as cancelled for its reason, and otherwise waited on. It ends silently
/// only where it turned into some other verification.
pub proof fn a_request_is_followed_to_its_end(flow_id: String, state: RequestState)
    ensures
        request_step(flow_id, state) is FollowSas <==> state == (RequestState::Transitioned {
            sas: true,
        }),
        request_step(flow_id, state) == WatchStep::Finish(None) <==> state
            == (RequestState::Transitioned { sas: false }),
        state is Done ==> request_step(flow_id, state) == WatchStep::Finish(
            Some(MeshUpdate::VerificationDone { flow_id }),
        ),
        state matches RequestState::Cancelled(why) ==> request_step(flow_id, state)
            == WatchStep::Finish(Some(MeshUpdate::VerificationCancelled { flow_id, reason: why })),
        request_step(flow_id, state) is Watch <==> state is Other,
        !(request_step(flow_id, state) is Report),
{
}

/// The emojis that were negotiated reach the frontend as they are, under their flow, as
/// soon as the keys are exchanged; the end is told as it was, and nothing else is.
pub proof fn the_negotiated_emojis_are_told(flow_id: String, state: SasState, emojis: Vec<SasEmoji>)
    ensures
        sas_step(flow_id, SasState::KeysExchanged { emojis: Some(emojis) }) == WatchStep::Report(
            MeshUpdate::VerificationEmojis { flow_id, emojis },
        ),
        state is Done ==> sas_step(flow_id, state) == WatchStep::Finish(
            Some(MeshUpdate::VerificationDone { flow_id }),
        ),
        state matches SasState::Cancelled(why) ==> sas_step(flow_id, state) == WatchStep::Finish(
            Some(MeshUpdate::VerificationCancelled { flow_id, reason: why }),
        ),
        sas_step(flow_id, state) is Watch <==> state is Other || state == (SasState::KeysExchanged {
            emojis: None,
        }),
        !(sas_step(flow_id, state) is FollowSas),
{
}

/// A verification that the other side started is for us to accept, one that we started is
/// not. Accepting it, where that worked or was not asked for, leads on to its states.
pub proof fn what_the_other_side_started_is_accepted(
    flow_id: String,
    accepted: Option<Result<(), String>>,
)
    ensures
        is_ours_to_accept(false),
        !is_ours_to_accept(true),
        accepted is None || accepted == Some(Ok::<(), String>(())) ==> begin_step(flow_id, accepted)
            is Watch,
        accepted matches Some(Err(why)) ==> begin_step(flow_id, accepted) == WatchStep::Finish(
            Some(MeshUpdate::VerificationCancelled { flow_id, reason: why }),
        ),
{
}

} // verus!
