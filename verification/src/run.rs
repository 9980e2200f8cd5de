//! Whole runs of the controller, and what holds of every one of them.
//!
//! A run is an operation and the events that its caller reports, in their
//! order. What it does is the sequence of actions that the controller asks
//! for: the first action of the operation, and then the answer to each event,
//! up to the first event that has none.

use crate::manifest::Manifest;
use crate::operation::Operation;
use crate::remote::github_url;
use crate::sync::{
    after_fetch, after_load, start_of, step_of, ActionView, EventView, OutcomeView, StateView,
};
use crate::version::Version;
use std::cmp::Ordering;
use vstd::prelude::*;

verus! {

/// The actions that answer `events`, one after the other, from `state` on.
pub open spec fn answers(state: StateView, events: Seq<EventView>) -> Seq<ActionView>
    decreases events.len(),
{
    if events.len() == 0 {
        Seq::empty()
    } else {
        match step_of(state, events[0]) {
            Some((next, action)) => seq![action] + answers(next, events.drop_first()),
            None => Seq::empty(),
        }
    }
}

/// The actions of the run of `operation` on `events`.
pub open spec fn run(operation: Operation, events: Seq<EventView>) -> Seq<ActionView> {
    seq![start_of(operation).1] + answers(start_of(operation).0, events)
}

/// The place of an action in the one order that every run keeps.
pub open spec fn stage(action: ActionView) -> nat {
    match action {
        ActionView::CheckExists => 0,
        ActionView::Prompt => 1,
        ActionView::Load => 2,
        ActionView::Fetch { .. } => 3,
        ActionView::Sync { .. } => 4,
        ActionView::Save(_) => 5,
        ActionView::Finish(_) => 6,
    }
}

/// The least stage of an action that can still come in `state`.
pub open spec fn next_stage(state: StateView) -> nat {
    match state {
        StateView::AwaitingExists => 1,
        StateView::AwaitingAnswers => 5,
        StateView::AwaitingManifest(_) => 3,
        StateView::AwaitingRemote { .. } => 4,
        StateView::AwaitingSync => 6,
        StateView::AwaitingSave(_) => 6,
        StateView::Finished => 7,
    }
}

/// The states that Reconcile passes through.
pub open spec fn reconciling(state: StateView) -> bool {
    match state {
        StateView::AwaitingManifest(operation) => operation == Operation::Reconcile,
        StateView::AwaitingRemote { .. } => true,
        StateView::AwaitingSync => true,
        StateView::Finished => true,
        _ => false,
    }
}

/// Every step moves on: its action is not behind the state it answers in,
/// and the state it leads to is beyond its action.
proof fn lemma_step_ascends(state: StateView, event: EventView)
    ensures
        step_of(state, event) matches Some((next, action)) ==> next_stage(state) <= stage(action)
            < next_stage(next),
{
}

/// The actions from a state on come in ascending stages, none behind the
/// state.
proof fn lemma_answers_ascend(state: StateView, events: Seq<EventView>)
    ensures
        forall|i: int|
            0 <= i < answers(state, events).len() ==> next_stage(state) <= stage(
                #[trigger] answers(state, events)[i],
            ),
        forall|i: int, j: int|
            0 <= i < j < answers(state, events).len() ==> stage(
                #[trigger] answers(state, events)[i],
            ) < stage(#[trigger] answers(state, events)[j]),
    decreases events.len(),
{
    if events.len() > 0 {
        match step_of(state, events[0]) {
            Some((next, action)) => {
                lemma_step_ascends(state, events[0]);
                lemma_answers_ascend(next, events.drop_first());
                let rest = answers(next, events.drop_first());
                let all = answers(state, events);
                assert(all =~= seq![action] + rest);
                assert forall|i: int| 0 <= i < all.len() implies next_stage(state) <= stage(
                    #[trigger] all[i],
                ) by {
                    if i > 0 {
                        assert(all[i] == rest[i - 1]);
                    }
                }
                assert forall|i: int, j: int| 0 <= i < j < all.len() implies stage(
                    #[trigger] all[i],
                ) < stage(#[trigger] all[j]) by {
                    assert(all[j] == rest[j - 1]);
                    if i > 0 {
                        assert(all[i] == rest[i - 1]);
                    }
                }
            },
            None => {},
        }
    }
}

/// While Reconcile runs, nothing is saved and the user is not prompted.
proof fn lemma_reconciling_only_reads(state: StateView, events: Seq<EventView>)
    requires
        reconciling(state),
    ensures
        forall|i: int|
            0 <= i < answers(state, events).len() ==> !(#[trigger] answers(state, events)[i] is Save)
                && !(answers(state, events)[i] is Prompt),
    decreases events.len(),
{
    if events.len() > 0 {
        match step_of(state, events[0]) {
            Some((next, action)) => {
                lemma_reconciling_only_reads(next, events.drop_first());
                let rest = answers(next, events.drop_first());
                let all = answers(state, events);
                assert(all =~= seq![action] + rest);
                assert forall|i: int| 0 <= i < all.len() implies !(#[trigger] all[i] is Save) && !(
                all[i] is Prompt) by {
                    if i > 0 {
                        assert(all[i] == rest[i - 1]);
                    }
                }
            },
            None => {},
        }
    }
}

/// A run is strictly sequential: its actions come in one fixed order of
/// stages, each stage at most once. So a run checks for the manifest, prompts,
/// loads, fetches, syncs and saves at most once each, and nothing follows
/// its `Finish`.
pub proof fn law_run_is_sequential(operation: Operation, events: Seq<EventView>)
    ensures
        forall|i: int, j: int|
            0 <= i < j < run(operation, events).len() ==> stage(
                #[trigger] run(operation, events)[i],
            ) < stage(#[trigger] run(operation, events)[j]),
{
    let first = start_of(operation).1;
    let rest = answers(start_of(operation).0, events);
    let all = run(operation, events);
    lemma_answers_ascend(start_of(operation).0, events);
    assert forall|i: int, j: int| 0 <= i < j < all.len() implies stage(#[trigger] all[i]) < stage(
        #[trigger] all[j],
    ) by {
        assert(all[j] == rest[j - 1]);
        if i > 0 {
            assert(all[i] == rest[i - 1]);
        }
    }
}

/// Init on a manifest that exists already asks whether it exists and then
/// finishes: it saves nothing and prompts for nothing, whatever is reported
/// to it afterwards.
pub proof fn law_init_spares_existing_manifest(events: Seq<EventView>)
    requires
        events.len() > 0,
        events[0] == EventView::Exists(true),
    ensures
        run(Operation::Init, events) == seq![
            ActionView::CheckExists,
            ActionView::Finish(OutcomeView::AlreadyExists),
        ],
{
    let rest = events.drop_first();
    assert(answers(StateView::Finished, rest) =~= Seq::<ActionView>::empty());
    assert(run(Operation::Init, events) =~= seq![
        ActionView::CheckExists,
        ActionView::Finish(OutcomeView::AlreadyExists),
    ]);
}

/// Reconcile only reads the manifest: in no run does it save one, or prompt
/// the user.
pub proof fn law_reconcile_never_saves(events: Seq<EventView>)
    ensures
        forall|i: int|
            0 <= i < run(Operation::Reconcile, events).len() ==> !(#[trigger] run(
                Operation::Reconcile,
                events,
            )[i] is Save) && !(run(Operation::Reconcile, events)[i] is Prompt),
{
    let rest = answers(start_of(Operation::Reconcile).0, events);
    let all = run(Operation::Reconcile, events);
    lemma_reconciling_only_reads(start_of(Operation::Reconcile).0, events);
    assert forall|i: int| 0 <= i < all.len() implies !(#[trigger] all[i] is Save) && !(
    all[i] is Prompt) by {
        if i > 0 {
            assert(all[i] == rest[i - 1]);
        }
    }
}

/// A sync is asked for only by Reconcile, only as the third action of its
/// run, and only after a manifest was loaded and a remote version fetched of
/// which the local one is the older. With the law that a run is sequential,
/// no run syncs twice.
pub proof fn law_sync_only_when_remote_newer(
    operation: Operation,
    events: Seq<EventView>,
    i: int,
)
    requires
        0 <= i < run(operation, events).len(),
        run(operation, events)[i] is Sync,
    ensures
        operation == Operation::Reconcile,
        i == 2,
        events.len() >= 2,
        events[0] matches EventView::Loaded(manifest) && events[1] matches EventView::Fetched {
            version,
        } && Version::of_text(manifest.version).order(Version::of_text(version))
            == Ordering::Less && run(operation, events)[i] == (ActionView::Sync {
            local: manifest.version,
            remote: version,
        }),
{
    let begin = start_of(operation);
    let all = run(operation, events);
    let first = answers(begin.0, events);
    assert(all[i] == first[i - 1]);
    match step_of(begin.0, events[0]) {
        Some((second_state, second_action)) => {
            let second = answers(second_state, events.drop_first());
            assert(first =~= seq![second_action] + second);
            lemma_step_ascends(begin.0, events[0]);
            lemma_answers_ascend(second_state, events.drop_first());
            assert(i >= 2);
            assert(first[i - 1] == second[i - 2]);
            let later = events.drop_first();
            assert(later[0] == events[1]);
            match step_of(second_state, later[0]) {
                Some((third_state, third_action)) => {
                    let third = answers(third_state, later.drop_first());
                    assert(second =~= seq![third_action] + third);
                    lemma_step_ascends(second_state, later[0]);
                    lemma_answers_ascend(third_state, later.drop_first());
                    if i > 2 {
                        assert(second[i - 2] == third[i - 3]);
                    }
                },
                None => {},
            }
        },
        None => {},
    }
}

/// Reconcile decides by the order of the two versions. Once the manifest is
/// loaded and the remote version fetched, it asks for one sync where the
/// local version is the older one, and finishes without any where the two
/// are equal or the local one is the newer.
pub proof fn law_reconcile_decides_by_order(
    manifest: Manifest,
    remote: Seq<char>,
    later: Seq<EventView>,
)
    ensures
        ({
            let events = seq![
                EventView::Loaded(manifest),
                EventView::Fetched { version: remote },
            ] + later;
            let actions = run(Operation::Reconcile, events);
            let local = manifest.version;
            &&& actions.len() >= 3
            &&& actions[0] == ActionView::Load
            &&& actions[1] == (ActionView::Fetch {
                url: github_url(manifest.username, manifest.repo, manifest.branch),
            })
            &&& match Version::of_text(local).order(Version::of_text(remote)) {
                Ordering::Less => actions[2] == (ActionView::Sync { local, remote }),
                Ordering::Equal => actions.len() == 3 && actions[2] == ActionView::Finish(
                    OutcomeView::UpToDate { local, remote },
                ),
                Ordering::Greater => actions.len() == 3 && actions[2] == ActionView::Finish(
                    OutcomeView::LocalAhead { local, remote },
                ),
            }
        }),
{
    let events = seq![EventView::Loaded(manifest), EventView::Fetched { version: remote }]
        + later;
    let begin = start_of(Operation::Reconcile);
    let after_first = events.drop_first();
    let after_second = after_first.drop_first();
    assert(after_first[0] == events[1]);
    let loaded = after_load(Operation::Reconcile, manifest)->0;
    let fetched = after_fetch(manifest.version, remote)->0;
    assert(answers(begin.0, events) =~= seq![loaded.1] + answers(loaded.0, after_first));
    assert(answers(loaded.0, after_first) =~= seq![fetched.1] + answers(
        fetched.0,
        after_second,
    ));
    if fetched.0 == StateView::Finished {
        assert(answers(fetched.0, after_second) =~= Seq::<ActionView>::empty());
    }
}

/// A bump saves only as the second action of its run, and what it saves is
/// the manifest that was loaded with its version stepped up: the user, the
/// repository and the branch are those that were loaded.
pub proof fn law_bump_changes_version_only(operation: Operation, events: Seq<EventView>, i: int)
    requires
        operation.is_bump(),
        0 <= i < run(operation, events).len(),
        run(operation, events)[i] is Save,
    ensures
        i == 1,
        events.len() >= 1,
        events[0] matches EventView::Loaded(manifest) && run(operation, events)[i]
            matches ActionView::Save(saved) && saved.username == manifest.username && saved.repo
            == manifest.repo && saved.branch == manifest.branch && saved == (if operation
            == Operation::BumpPatch {
            manifest.patch_bumped()
        } else {
            manifest.major_bumped()
        }),
{
    let begin = start_of(operation);
    let all = run(operation, events);
    let first = answers(begin.0, events);
    assert(all[i] == first[i - 1]);
    match step_of(begin.0, events[0]) {
        Some((second_state, second_action)) => {
            let second = answers(second_state, events.drop_first());
            assert(first =~= seq![second_action] + second);
            lemma_answers_ascend(second_state, events.drop_first());
            if i > 1 {
                assert(first[i - 1] == second[i - 2]);
            }
        },
        None => {},
    }
}

} // verus!
