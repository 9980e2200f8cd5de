//! The controller: what to do next, given what has happened so far.
//!
//! The controller touches no file, network or process. It is a machine of
//! states: `start` names the first action of an operation, the caller
//! performs each action and reports what came of it as an event, and `step`
//! answers each event with the next action, until that action is `Finish`.
//!
//! - Init asks whether a manifest exists. If so it finishes at once. If not
//!   it has the user prompted, builds the manifest from the answers, each
//!   trimmed of the whitespace around it, and has it saved.
//! - A bump has the manifest loaded, steps its version up, has the result
//!   saved and reports the new version.
//! - Reconcile has the manifest loaded and the remote version fetched, and
//!   compares the two. Only where the local version is the older one does it
//!   ask for a sync. It never has anything saved.
//!
//! A failure to load or to fetch ends the run with its error. A sync that
//! fails is reported and ends the run too, as a warning.

use crate::error::SyncError;
use crate::manifest::{GitSource, Manifest};
use crate::operation::Operation;
use crate::remote::{create_github_url, github_url};
use crate::text::{trim, trimmed};
use crate::version::{compare_versions, Version};
use std::cmp::Ordering;
use vstd::prelude::*;
use vstd::string::*;

verus! {

/// How a run ended.
#[derive(Debug, PartialEq, Eq)]
pub enum Outcome {
    /// Init found a manifest and left it alone.
    AlreadyExists,
    /// Init has created the manifest.
    Created,
    /// A bump has stored the new version.
    Updated { version: String },
    /// Reconcile found the two versions equal.
    UpToDate { local: String, remote: String },
    /// Reconcile found the local version to be the newer one.
    LocalAhead { local: String, remote: String },
    /// Reconcile found the remote version to be the newer one, and the sync
    /// succeeded.
    Synced,
    /// The run failed.
    Failed(SyncError),
}

/// What the controller asks its caller to do.
#[derive(Debug, PartialEq, Eq)]
pub enum Action {
    /// Tell whether a manifest exists.
    CheckExists,
    /// Ask the user for the four fields of a new manifest.
    Prompt,
    /// Load the manifest.
    Load,
    /// Store this manifest in place of whatever is stored.
    Save(GitSource),
    /// Fetch the remote manifest from this address.
    Fetch { url: String },
    /// Report that the remote version is the newer one, and sync with the
    /// remote repository.
    Sync { local: String, remote: String },
    /// Report the outcome. The run is over.
    Finish(Outcome),
}

/// What came of an action.
#[derive(Debug, PartialEq, Eq)]
pub enum Event {
    /// Whether a manifest exists.
    Exists(bool),
    /// What the user typed at each of the four prompts.
    Answers { username: String, repo: String, branch: String, version: String },
    /// The manifest that was loaded.
    Loaded(GitSource),
    /// There is no manifest to load.
    ManifestMissing,
    /// What was loaded is no well-formed manifest.
    ManifestMalformed,
    /// The manifest has been stored.
    Saved,
    /// The version that the remote manifest holds.
    Fetched { version: String },
    /// The request for the remote manifest failed.
    NetworkFailed,
    /// What was fetched is no manifest with a version.
    RemoteMalformed,
    /// The sync has run, and this is whether it succeeded.
    Synced { success: bool },
}

/// Where a run stands: which event it awaits, and what it has to remember.
#[derive(Debug, PartialEq, Eq)]
pub enum State {
    AwaitingExists,
    AwaitingAnswers,
    AwaitingManifest(Operation),
    AwaitingSave(Outcome),
    AwaitingRemote { local: String },
    AwaitingSync,
    Finished,
}

/// What an `Outcome` holds.
pub enum OutcomeView {
    AlreadyExists,
    Created,
    Updated { version: Seq<char> },
    UpToDate { local: Seq<char>, remote: Seq<char> },
    LocalAhead { local: Seq<char>, remote: Seq<char> },
    Synced,
    Failed(SyncError),
}

/// What an `Action` holds.
pub enum ActionView {
    CheckExists,
    Prompt,
    Load,
    Save(Manifest),
    Fetch { url: Seq<char> },
    Sync { local: Seq<char>, remote: Seq<char> },
    Finish(OutcomeView),
}

/// What an `Event` holds.
pub enum EventView {
    Exists(bool),
    Answers { username: Seq<char>, repo: Seq<char>, branch: Seq<char>, version: Seq<char> },
    Loaded(Manifest),
    ManifestMissing,
    ManifestMalformed,
    Saved,
    Fetched { version: Seq<char> },
    NetworkFailed,
    RemoteMalformed,
    Synced { success: bool },
}

/// What a `State` holds.
pub enum StateView {
    AwaitingExists,
    AwaitingAnswers,
    AwaitingManifest(Operation),
    AwaitingSave(OutcomeView),
    AwaitingRemote { local: Seq<char> },
    AwaitingSync,
    Finished,
}

impl View for Outcome {
    type V = OutcomeView;

    open spec fn view(&self) -> OutcomeView {
        match *self {
            Outcome::AlreadyExists => OutcomeView::AlreadyExists,
            Outcome::Created => OutcomeView::Created,
            Outcome::Updated { version } => OutcomeView::Updated { version: version@ },
            Outcome::UpToDate { local, remote } => OutcomeView::UpToDate {
                local: local@,
                remote: remote@,
            },
            Outcome::LocalAhead { local, remote } => OutcomeView::LocalAhead {
                local: local@,
                remote: remote@,
            },
            Outcome::Synced => OutcomeView::Synced,
            Outcome::Failed(error) => OutcomeView::Failed(error),
        }
    }
}

impl View for Action {
    type V = ActionView;

    open spec fn view(&self) -> ActionView {
        match *self {
            Action::CheckExists => ActionView::CheckExists,
            Action::Prompt => ActionView::Prompt,
            Action::Load => ActionView::Load,
            Action::Save(source) => ActionView::Save(source@),
            Action::Fetch { url } => ActionView::Fetch { url: url@ },
            Action::Sync { local, remote } => ActionView::Sync { local: local@, remote: remote@ },
            Action::Finish(outcome) => ActionView::Finish(outcome@),
        }
    }
}

impl View for Event {
    type V = EventView;

    open spec fn view(&self) -> EventView {
        match *self {
            Event::Exists(exists) => EventView::Exists(exists),
            Event::Answers { username, repo, branch, version } => EventView::Answers {
                username: username@,
                repo: repo@,
                branch: branch@,
                version: version@,
            },
            Event::Loaded(source) => EventView::Loaded(source@),
            Event::ManifestMissing => EventView::ManifestMissing,
            Event::ManifestMalformed => EventView::ManifestMalformed,
            Event::Saved => EventView::Saved,
            Event::Fetched { version } => EventView::Fetched { version: version@ },
            Event::NetworkFailed => EventView::NetworkFailed,
            Event::RemoteMalformed => EventView::RemoteMalformed,
            Event::Synced { success } => EventView::Synced { success },
        }
    }
}

impl View for State {
    type V = StateView;

    open spec fn view(&self) -> StateView {
        match *self {
            State::AwaitingExists => StateView::AwaitingExists,
            State::AwaitingAnswers => StateView::AwaitingAnswers,
            State::AwaitingManifest(operation) => StateView::AwaitingManifest(operation),
            State::AwaitingSave(outcome) => StateView::AwaitingSave(outcome@),
            State::AwaitingRemote { local } => StateView::AwaitingRemote { local: local@ },
            State::AwaitingSync => StateView::AwaitingSync,
            State::Finished => StateView::Finished,
        }
    }
}

/// The state and the first action of an operation.
pub open spec fn start_of(operation: Operation) -> (StateView, ActionView) {
    match operation {
        Operation::Init => (StateView::AwaitingExists, ActionView::CheckExists),
        _ => (StateView::AwaitingManifest(operation), ActionView::Load),
    }
}

/// The end of a run with `outcome`.
pub open spec fn finish(outcome: OutcomeView) -> Option<(StateView, ActionView)> {
    Some((StateView::Finished, ActionView::Finish(outcome)))
}

/// How Init goes on once it knows whether a manifest exists.
pub open spec fn after_exists(exists: bool) -> Option<(StateView, ActionView)> {
    if exists {
        finish(OutcomeView::AlreadyExists)
    } else {
        Some((StateView::AwaitingAnswers, ActionView::Prompt))
    }
}

/// The manifest that the user's answers describe: each answer without the
/// whitespace around it.
pub open spec fn manifest_of_answers(
    username: Seq<char>,
    repo: Seq<char>,
    branch: Seq<char>,
    version: Seq<char>,
) -> Manifest {
    Manifest {
        version: trimmed(version),
        username: trimmed(username),
        repo: trimmed(repo),
        branch: trimmed(branch),
    }
}

/// How an operation goes on once the manifest is loaded. A bump has no way
/// to go on where the number to step up is `u32::MAX` already.
pub open spec fn after_load(operation: Operation, manifest: Manifest) -> Option<
    (StateView, ActionView),
> {
    match operation {
        Operation::Init => None,
        Operation::BumpPatch => if manifest.parsed_version().patch < u32::MAX {
            let bumped = manifest.patch_bumped();
            Some(
                (
                    StateView::AwaitingSave(OutcomeView::Updated { version: bumped.version }),
                    ActionView::Save(bumped),
                ),
            )
        } else {
            None
        },
        Operation::BumpMajor => if manifest.parsed_version().major < u32::MAX {
            let bumped = manifest.major_bumped();
            Some(
                (
                    StateView::AwaitingSave(OutcomeView::Updated { version: bumped.version }),
                    ActionView::Save(bumped),
                ),
            )
        } else {
            None
        },
        Operation::Reconcile => Some(
            (
                StateView::AwaitingRemote { local: manifest.version },
                ActionView::Fetch {
                    url: github_url(manifest.username, manifest.repo, manifest.branch),
                },
            ),
        ),
    }
}

/// How Reconcile goes on once it has both versions.
pub open spec fn after_fetch(local: Seq<char>, remote: Seq<char>) -> Option<
    (StateView, ActionView),
> {
    match Version::of_text(local).order(Version::of_text(remote)) {
        Ordering::Less => Some((StateView::AwaitingSync, ActionView::Sync { local, remote })),
        Ordering::Equal => finish(OutcomeView::UpToDate { local, remote }),
        Ordering::Greater => finish(OutcomeView::LocalAhead { local, remote }),
    }
}

/// The state that follows `state` on `event`, and the action that answers
/// the event. There is none where the event is not what the state awaits,
/// where the run is over, and where a bump would overflow.
pub open spec fn step_of(state: StateView, event: EventView) -> Option<(StateView, ActionView)> {
    match state {
        StateView::AwaitingExists => match event {
            EventView::Exists(exists) => after_exists(exists),
            _ => None,
        },
        StateView::AwaitingAnswers => match event {
            EventView::Answers { username, repo, branch, version } => Some(
                (
                    StateView::AwaitingSave(OutcomeView::Created),
                    ActionView::Save(manifest_of_answers(username, repo, branch, version)),
                ),
            ),
            _ => None,
        },
        StateView::AwaitingManifest(operation) => match event {
            EventView::Loaded(manifest) => after_load(operation, manifest),
            EventView::ManifestMissing => if operation == Operation::Init {
                None
            } else {
                finish(OutcomeView::Failed(SyncError::ManifestNotFound))
            },
            EventView::ManifestMalformed => if operation == Operation::Init {
                None
            } else {
                finish(OutcomeView::Failed(SyncError::ManifestParseError))
            },
            _ => None,
        },
        StateView::AwaitingSave(outcome) => match event {
            EventView::Saved => finish(outcome),
            _ => None,
        },
        StateView::AwaitingRemote { local } => match event {
            EventView::Fetched { version } => after_fetch(local, version),
            EventView::NetworkFailed => finish(OutcomeView::Failed(SyncError::NetworkError)),
            EventView::RemoteMalformed => finish(
                OutcomeView::Failed(SyncError::RemoteParseError),
            ),
            _ => None,
        },
        StateView::AwaitingSync => match event {
            EventView::Synced { success } => if success {
                finish(OutcomeView::Synced)
            } else {
                finish(OutcomeView::Failed(SyncError::VcsInvocationError))
            },
            _ => None,
        },
        StateView::Finished => None,
    }
}

/// Begins an operation: the state to keep, and the first action to perform.
pub fn start(operation: Operation) -> (begin: (State, Action))
    ensures
        (begin.0@, begin.1@) == start_of(operation),
{
    match operation {
        Operation::Init => (State::AwaitingExists, Action::CheckExists),
        _ => (State::AwaitingManifest(operation), Action::Load),
    }
}

/// The manifest that Init creates from what the user typed.
pub fn manifest_from_answers(username: &str, repo: &str, branch: &str, version: &str) -> (source:
    GitSource)
    ensures
        source@ == manifest_of_answers(username@, repo@, branch@, version@),
{
    GitSource {
        version: trim(version),
        username: trim(username),
        repo: trim(repo),
        branch: trim(branch),
    }
}

/// The end of a run with `outcome`.
fn finished(outcome: Outcome) -> (next: Option<(State, Action)>)
    ensures
        next matches Some((state, action)) && finish(outcome@) == Some((state@, action@)),
{
    Some((State::Finished, Action::Finish(outcome)))
}

/// Goes on with an operation once the manifest is loaded.
fn step_loaded(operation: Operation, source: GitSource) -> (next: Option<(State, Action)>)
    ensures
        match next {
            Some((state, action)) => after_load(operation, source@) == Some((state@, action@)),
            None => after_load(operation, source@) is None,
        },
{
    match operation {
        Operation::Init => None,
        Operation::BumpPatch => {
            let version = Version::parse(source.version.as_str());
            if version.patch < u32::MAX {
                let bumped = source.bump_patch();
                let outcome = Outcome::Updated { version: bumped.version.clone() };
                Some((State::AwaitingSave(outcome), Action::Save(bumped)))
            } else {
                None
            }
        },
        Operation::BumpMajor => {
            let version = Version::parse(source.version.as_str());
            if version.major < u32::MAX {
                let bumped = source.bump_major();
                let outcome = Outcome::Updated { version: bumped.version.clone() };
                Some((State::AwaitingSave(outcome), Action::Save(bumped)))
            } else {
                None
            }
        },
        Operation::Reconcile => {
            let url = create_github_url(
                source.username.as_str(),
                source.repo.as_str(),
                source.branch.as_str(),
            );
            Some((State::AwaitingRemote { local: source.version }, Action::Fetch { url }))
        },
    }
}

/// Goes on with Reconcile once both versions are known.
fn step_fetched(local: String, remote: String) -> (next: Option<(State, Action)>)
    ensures
        next matches Some((state, action)) && after_fetch(local@, remote@) == Some(
            (state@, action@),
        ),
{
    match compare_versions(local.as_str(), remote.as_str()) {
        Ordering::Less => Some((State::AwaitingSync, Action::Sync { local, remote })),
        Ordering::Equal => finished(Outcome::UpToDate { local, remote }),
        Ordering::Greater => finished(Outcome::LocalAhead { local, remote }),
    }
}

/// Answers an event: the state to keep and the action to perform next, or
/// `None` where the machine has no step to take. That is so where the event
/// is not what the state awaits, where the run is over, and where a bump
/// finds the number that it is to step up at `u32::MAX`.
pub fn step(state: State, event: Event) -> (next: Option<(State, Action)>)
    ensures
        match next {
            Some((state_after, action)) => step_of(state@, event@) == Some(
                (state_after@, action@),
            ),
            None => step_of(state@, event@) is None,
        },
{
    match state {
        State::AwaitingExists => match event {
            Event::Exists(exists) => if exists {
                finished(Outcome::AlreadyExists)
            } else {
                Some((State::AwaitingAnswers, Action::Prompt))
            },
            _ => None,
        },
        State::AwaitingAnswers => match event {
            Event::Answers { username, repo, branch, version } => {
                let source = manifest_from_answers(
                    username.as_str(),
                    repo.as_str(),
                    branch.as_str(),
                    version.as_str(),
                );
                Some((State::AwaitingSave(Outcome::Created), Action::Save(source)))
            },
            _ => None,
        },
        State::AwaitingManifest(operation) => match event {
            Event::Loaded(source) => step_loaded(operation, source),
            Event::ManifestMissing => match operation {
                Operation::Init => None,
                _ => finished(Outcome::Failed(SyncError::ManifestNotFound)),
            },
            Event::ManifestMalformed => match operation {
                Operation::Init => None,
                _ => finished(Outcome::Failed(SyncError::ManifestParseError)),
            },
            _ => None,
        },
        State::AwaitingSave(outcome) => match event {
            Event::Saved => finished(outcome),
            _ => None,
        },
        State::AwaitingRemote { local } => match event {
            Event::Fetched { version } => step_fetched(local, version),
            Event::NetworkFailed => finished(Outcome::Failed(SyncError::NetworkError)),
            Event::RemoteMalformed => finished(Outcome::Failed(SyncError::RemoteParseError)),
            _ => None,
        },
        State::AwaitingSync => match event {
            Event::Synced { success } => if success {
                finished(Outcome::Synced)
            } else {
                finished(Outcome::Failed(SyncError::VcsInvocationError))
            },
            _ => None,
        },
        State::Finished => None,
    }
}

} // verus!
