//! What holds of the session bridge for every sequence of events.

use crate::bridge::{
    bridge_step, history_meta, initial_bridge, is_benign_shutdown, user_record, BridgeActionView,
    BridgeEventView, BridgePhase, BridgeView, PromptOutcomeView,
};
use crate::json::{json_object, json_string};
use crate::protocol::AcpEventView;
use vstd::prelude::*;

verus! {

/// The transitions of a list of events, one after the other, each with the
/// identifier that would be drawn at it: the state at the end and all
/// actions in order.
pub open spec fn bridge_run(st: BridgeView, inputs: Seq<(BridgeEventView, Seq<char>)>) -> (
    BridgeView,
    Seq<BridgeActionView>,
)
    decreases inputs.len(),
{
    if inputs.len() == 0 {
        (st, Seq::empty())
    } else {
        let (before, actions) = bridge_run(st, inputs.drop_last());
        let (after, more) = bridge_step(before, inputs.last().0, inputs.last().1);
        (after, actions + more)
    }
}

/// The action puts the session id on the log.
pub open spec fn announces_session(a: BridgeActionView) -> bool {
    match a {
        BridgeActionView::Emit { event } => event is SessionStart,
        _ => false,
    }
}

/// The action puts something other than the session id on the log, or
/// lets the agent's events onto it.
pub open spec fn feeds_log(a: BridgeActionView) -> bool {
    match a {
        BridgeActionView::Emit { event } => !(event is SessionStart),
        BridgeActionView::StartForwarder { .. } => true,
        _ => false,
    }
}

/// The action signals the end of the turn.
pub open spec fn signals_exit(a: BridgeActionView) -> bool {
    a is SignalExit
}

/// The session id has gone on the log among the first `n` actions.
pub open spec fn announced_before(actions: Seq<BridgeActionView>, n: int) -> bool {
    exists|i: int| 0 <= i < n && i < actions.len() && announces_session(#[trigger] actions[i])
}

/// The order of the log so far: the session id has gone on it at most once,
/// nothing else went on it before the session id, and the turn is open only
/// after the session id.
pub open spec fn log_in_order(st: BridgeView, actions: Seq<BridgeActionView>) -> bool {
    &&& forall|i: int, j: int|
        0 <= i < j < actions.len() && announces_session(#[trigger] actions[i])
            ==> !announces_session(#[trigger] actions[j])
    &&& forall|j: int|
        0 <= j < actions.len() && feeds_log(#[trigger] actions[j]) ==> announced_before(actions, j)
    &&& announced_before(actions, actions.len() as int) ==> st.phase == BridgePhase::Prompting
        || st.phase == BridgePhase::Finished
    &&& st.phase == BridgePhase::Prompting ==> announced_before(actions, actions.len() as int)
}

/// One transition keeps the log in order.
proof fn lemma_step_keeps_order(
    st: BridgeView,
    actions: Seq<BridgeActionView>,
    event: BridgeEventView,
    minted: Seq<char>,
)
    requires
        log_in_order(st, actions),
    ensures
        log_in_order(bridge_step(st, event, minted).0, actions + bridge_step(st, event, minted).1),
{
    let (after, more) = bridge_step(st, event, minted);
    let all = actions + more;
    let n = actions.len() as int;
    assert forall|k: int| 0 <= k < n implies all[k] == actions[k] by {}
    assert forall|k: int| n <= k < all.len() implies all[k] == more[k - n] by {}
    if announced_before(actions, n) {
        let w = choose|i: int| 0 <= i < n && i < actions.len() && announces_session(actions[i]);
        assert(announces_session(all[w]));
        assert forall|j: int| 0 <= j < all.len() && feeds_log(#[trigger] all[j]) implies announced_before(
            all,
            j,
        ) by {
            if j < n {
                let v = choose|i: int|
                    0 <= i < j && i < actions.len() && announces_session(actions[i]);
                assert(announces_session(all[v]));
            } else {
                assert(announces_session(all[w]));
            }
        }
        assert(announced_before(all, all.len() as int));
        assert forall|i: int, j: int|
            0 <= i < j < all.len() && announces_session(#[trigger] all[i]) implies !announces_session(
            #[trigger] all[j],
        ) by {
            if j >= n {
                assert(all[j] == more[j - n]);
            }
        }
    } else {
        assert forall|k: int| 0 <= k < n implies !announces_session(#[trigger] all[k]) by {
            if announces_session(all[k]) {
                assert(announces_session(actions[k]));
            }
        }
        assert forall|j: int| 0 <= j < all.len() && feeds_log(#[trigger] all[j]) implies announced_before(
            all,
            j,
        ) by {
            if j < n {
                assert(feeds_log(actions[j]));
                assert(announced_before(actions, j));
                let v = choose|i: int|
                    0 <= i < j && i < actions.len() && announces_session(actions[i]);
                assert(announces_session(actions[v]));
            } else {
                assert(all[j] == more[j - n]);
                assert(more.len() == 4);
                assert(announces_session(more[0]));
                assert(announces_session(all[n]));
                assert(j > n);
            }
        }
        assert forall|i: int, j: int|
            0 <= i < j < all.len() && announces_session(#[trigger] all[i]) implies !announces_session(
            #[trigger] all[j],
        ) by {
            assert(i >= n);
            assert(all[i] == more[i - n]);
            assert(all[j] == more[j - n]);
        }
        if announced_before(all, all.len() as int) {
            let v = choose|i: int|
                0 <= i < all.len() && i < all.len() && announces_session(all[i]);
            assert(v >= n);
            assert(all[v] == more[v - n]);
        }
        if after.phase == BridgePhase::Prompting {
            assert(more.len() == 4);
            assert(announces_session(more[0]));
            assert(announces_session(all[n]));
        }
    }
}

/// Any run from a bridge whose log is in order keeps it in order.
proof fn lemma_run_keeps_order(st: BridgeView, inputs: Seq<(BridgeEventView, Seq<char>)>)
    requires
        log_in_order(st, Seq::empty()),
    ensures
        log_in_order(bridge_run(st, inputs).0, bridge_run(st, inputs).1),
    decreases inputs.len(),
{
    if inputs.len() > 0 {
        lemma_run_keeps_order(st, inputs.drop_last());
        let (before, actions) = bridge_run(st, inputs.drop_last());
        lemma_step_keeps_order(before, actions, inputs.last().0, inputs.last().1);
    }
}

/// Whatever the bridge is told, in whatever order: over one prompt turn the
/// session id goes on the log at most once, and nothing else goes on the
/// log, from the bridge or from the agent, unless the session id went on it
/// before.
pub proof fn law_session_start_comes_first(
    namespace: Seq<char>,
    existing_session: Option<Seq<char>>,
    prompt: Seq<char>,
    inputs: Seq<(BridgeEventView, Seq<char>)>,
)
    ensures
        ({
            let actions = bridge_run(initial_bridge(namespace, existing_session, prompt), inputs).1;
            &&& forall|i: int, j: int|
                0 <= i < j < actions.len() && announces_session(#[trigger] actions[i])
                    ==> !announces_session(#[trigger] actions[j])
            &&& forall|j: int|
                0 <= j < actions.len() && feeds_log(#[trigger] actions[j]) ==> announced_before(
                    actions,
                    j,
                )
        }),
{
    let st = initial_bridge(namespace, existing_session, prompt);
    lemma_run_keeps_order(st, inputs);
}

/// The turn begins with the session id: the step that sends the prompt
/// first puts the session id on the log, then starts forwarding, records
/// the prompt and sends it to the agent's session.
pub proof fn law_turn_opens_with_session_start(
    st: BridgeView,
    event: BridgeEventView,
    minted: Seq<char>,
)
    requires
        st.phase != BridgePhase::Prompting,
        bridge_step(st, event, minted).0.phase == BridgePhase::Prompting,
    ensures
        ({
            let (after, actions) = bridge_step(st, event, minted);
            let sent = match event {
                BridgeEventView::ResumePrompt { prompt: Some(p) } => p,
                _ => st.prompt,
            };
            actions == seq![
                BridgeActionView::Emit { event: AcpEventView::SessionStart(after.ui_session_id) },
                BridgeActionView::StartForwarder { session_id: after.ui_session_id },
                BridgeActionView::Persist {
                    session_id: after.ui_session_id,
                    line: user_record(sent),
                },
                BridgeActionView::SendPrompt { session_id: after.acp_session_id, text: sent },
            ]
        }),
{
}

/// A fresh session takes the agent's session id as the id that the log
/// shows, asks for the session without `meta`, and sends the user's prompt
/// as it is.
pub proof fn law_fresh_session(st: BridgeView, acp_id: Seq<char>, minted: Seq<char>)
    requires
        st.phase == BridgePhase::Initializing,
        st.existing_session is None,
    ensures
        ({
            let (asked, first) = bridge_step(st, BridgeEventView::Initialized, minted);
            let (open, second) = bridge_step(
                asked,
                BridgeEventView::SessionCreated { session_id: Some(acp_id) },
                minted,
            );
            &&& first == seq![BridgeActionView::NewSession { meta: None }]
            &&& open.phase == BridgePhase::Prompting
            &&& open.ui_session_id == acp_id
            &&& open.acp_session_id == acp_id
            &&& second[0] == BridgeActionView::Emit { event: AcpEventView::SessionStart(acp_id) }
            &&& second[3] == BridgeActionView::SendPrompt { session_id: acp_id, text: st.prompt }
        }),
{
}

/// A follow-up forks: the bridge draws a new id for the log, asks for the
/// transcript of the existing session to be copied to it and read back,
/// hands the transcript to the agent, unchanged, under `history_jsonl` in
/// the `meta` of the new session, shows the new id on the log, and sends
/// the prompt that the store composes for the new id (the user's prompt
/// where it composes none).
pub proof fn law_follow_up_forks(
    st: BridgeView,
    existing: Seq<char>,
    minted: Seq<char>,
    history: Option<Seq<char>>,
    acp_id: Seq<char>,
    resume: Option<Seq<char>>,
    later: Seq<char>,
)
    requires
        st.phase == BridgePhase::Initializing,
        st.existing_session == Some(existing),
    ensures
        ({
            let (forked, first) = bridge_step(st, BridgeEventView::Initialized, minted);
            let (asked, second) = bridge_step(
                forked,
                BridgeEventView::HistoryRead { history },
                later,
            );
            let (created, third) = bridge_step(
                asked,
                BridgeEventView::SessionCreated { session_id: Some(acp_id) },
                later,
            );
            let (open, fourth) = bridge_step(
                created,
                BridgeEventView::ResumePrompt { prompt: resume },
                later,
            );
            &&& first == seq![
                BridgeActionView::ForkSession { existing, new_id: minted },
                BridgeActionView::ReadSession { session_id: minted },
            ]
            &&& second == seq![BridgeActionView::NewSession { meta: history_meta(history) }]
            &&& history matches Some(h) ==> history_meta(history) == Some(
                json_object(seq![("history_jsonl"@, json_string(h))]),
            )
            &&& third == seq![
                BridgeActionView::GenerateResumePrompt { session_id: minted, prompt: st.prompt },
            ]
            &&& open.phase == BridgePhase::Prompting
            &&& open.ui_session_id == minted
            &&& open.acp_session_id == acp_id
            &&& fourth[0] == BridgeActionView::Emit { event: AcpEventView::SessionStart(minted) }
            &&& fourth[3] == BridgeActionView::SendPrompt {
                session_id: acp_id,
                text: match resume {
                    Some(p) => p,
                    None => st.prompt,
                },
            }
        }),
{
}

/// However the prompt call ends, the exit signal fires once, after what the
/// outcome puts on the log: the stop reason for an answer, nothing for the
/// agent's own shutdown, the error message for any other failure.
pub proof fn law_exit_signal_fires_once(st: BridgeView, outcome: PromptOutcomeView, minted: Seq<char>)
    requires
        st.phase == BridgePhase::Prompting,
    ensures
        ({
            let (after, actions) = bridge_step(
                st,
                BridgeEventView::PromptFinished { outcome },
                minted,
            );
            let quiet = outcome matches PromptOutcomeView::Failed { code, data, .. }
                && is_benign_shutdown(code, data);
            let n = actions.len() as int;
            &&& after.phase == BridgePhase::Finished
            &&& n == (if quiet {
                3int
            } else {
                4int
            })
            &&& actions[n - 3] == BridgeActionView::SignalExit
            &&& actions[n - 2] == BridgeActionView::Cancel { session_id: st.acp_session_id }
            &&& actions[n - 1] == BridgeActionView::Shutdown
            &&& !quiet ==> actions[0] == (BridgeActionView::Emit {
                event: match outcome {
                    PromptOutcomeView::Stopped { stop_reason: Some(r) } => AcpEventView::Done(r),
                    PromptOutcomeView::Stopped { stop_reason: None } => AcpEventView::Done(
                        Seq::empty(),
                    ),
                    PromptOutcomeView::Failed { message, .. } => AcpEventView::Error(message),
                },
            })
            &&& forall|i: int| 0 <= i < n && signals_exit(#[trigger] actions[i]) ==> i == n - 3
        }),
{
}

/// The turn never goes back: once it is over, no event yields an action or
/// changes the state.
pub proof fn law_finished_is_final(st: BridgeView, event: BridgeEventView, minted: Seq<char>)
    requires
        st.phase == BridgePhase::Finished,
    ensures
        bridge_step(st, event, minted) == (st, Seq::<BridgeActionView>::empty()),
{
}

/// The exit signal has fired among the given actions.
pub open spec fn exit_signalled(actions: Seq<BridgeActionView>) -> bool {
    exists|i: int| 0 <= i < actions.len() && signals_exit(#[trigger] actions[i])
}

/// The exit signal so far: it has fired at most once, and only a finished
/// turn has fired it.
pub open spec fn exit_in_order(st: BridgeView, actions: Seq<BridgeActionView>) -> bool {
    &&& forall|i: int, j: int|
        0 <= i < j < actions.len() && signals_exit(#[trigger] actions[i]) ==> !signals_exit(
            #[trigger] actions[j],
        )
    &&& exit_signalled(actions) ==> st.phase == BridgePhase::Finished
}

/// One transition keeps the exit signal in order.
proof fn lemma_step_keeps_exit_order(
    st: BridgeView,
    actions: Seq<BridgeActionView>,
    event: BridgeEventView,
    minted: Seq<char>,
)
    requires
        exit_in_order(st, actions),
    ensures
        exit_in_order(bridge_step(st, event, minted).0, actions + bridge_step(st, event, minted).1),
{
    let (after, more) = bridge_step(st, event, minted);
    let all = actions + more;
    let n = actions.len() as int;
    assert forall|k: int| 0 <= k < n implies all[k] == actions[k] by {}
    assert forall|k: int| n <= k < all.len() implies all[k] == more[k - n] by {}
    if st.phase == BridgePhase::Prompting && event is PromptFinished {
        law_exit_signal_fires_once(st, event->outcome, minted);
        assert forall|i: int, j: int|
            0 <= i < j < all.len() && signals_exit(#[trigger] all[i]) implies !signals_exit(
            #[trigger] all[j],
        ) by {
            if i < n {
                assert(signals_exit(actions[i]));
            } else {
                assert(all[i] == more[i - n]);
                assert(all[j] == more[j - n]);
            }
        }
    } else {
        assert forall|k: int| 0 <= k < more.len() implies !signals_exit(#[trigger] more[k]) by {}
        assert forall|i: int, j: int|
            0 <= i < j < all.len() && signals_exit(#[trigger] all[i]) implies !signals_exit(
            #[trigger] all[j],
        ) by {
            if j >= n {
                assert(all[j] == more[j - n]);
            }
        }
        if exit_signalled(all) {
            let w = choose|i: int| 0 <= i < all.len() && signals_exit(all[i]);
            if w >= n {
                assert(all[w] == more[w - n]);
            }
            assert(signals_exit(actions[w]));
        }
    }
}

/// Whatever the bridge is told, in whatever order: over one prompt turn the
/// exit signal fires at most once, and once it has fired the turn is over.
pub proof fn law_exit_signal_at_most_once(
    namespace: Seq<char>,
    existing_session: Option<Seq<char>>,
    prompt: Seq<char>,
    inputs: Seq<(BridgeEventView, Seq<char>)>,
)
    ensures
        exit_in_order(
            bridge_run(initial_bridge(namespace, existing_session, prompt), inputs).0,
            bridge_run(initial_bridge(namespace, existing_session, prompt), inputs).1,
        ),
    decreases inputs.len(),
{
    let st = initial_bridge(namespace, existing_session, prompt);
    if inputs.len() > 0 {
        law_exit_signal_at_most_once(namespace, existing_session, prompt, inputs.drop_last());
        let (before, actions) = bridge_run(st, inputs.drop_last());
        lemma_step_keeps_exit_order(before, actions, inputs.last().0, inputs.last().1);
    }
}

/// The bridge itself puts only the marks of a turn on the log: the start of
/// the session, the end of the turn, an error.
pub proof fn law_bridge_emits_only_turn_marks(
    st: BridgeView,
    event: BridgeEventView,
    minted: Seq<char>,
)
    ensures
        forall|i: int|
            0 <= i < bridge_step(st, event, minted).1.len() ==> match (#[trigger] bridge_step(
                st,
                event,
                minted,
            ).1[i]) {
                BridgeActionView::Emit { event } => event is SessionStart || event is Done
                    || event is Error,
                _ => true,
            },
{
}

} // verus!
