//! Supervising the launch of the browser process.
//!
//! Starting a process is the caller's business. The caller reports how the
//! attempt went, and `start_browser_session` records it in the session store
//! and answers the command.

use vstd::prelude::*;
use crate::store::{BrowserSessionStatus, SessionStore, StatusModel, StoreModel};

verus! {

/// How an attempt to start the browser process went.
#[derive(Debug, PartialEq, Eq)]
pub enum SpawnOutcome {
    /// The process is running.
    Started,
    /// The process could not be started, for the reason given.
    Failed(String),
}

impl SpawnOutcome {
    /// The reason of a failed attempt, `None` for a successful one.
    pub open spec fn failure(self) -> Option<Seq<char>> {
        match self {
            SpawnOutcome::Started => None,
            SpawnOutcome::Failed(reason) => Some(reason@),
        }
    }
}

/// The browser process could not be started.
#[derive(Debug, PartialEq, Eq)]
pub struct LaunchError {
    /// What the operating system said.
    pub reason: String,
}

/// The browser status that a launch attempt leaves behind.
pub open spec fn status_after_launch(failure: Option<Seq<char>>) -> StatusModel {
    match failure {
        None => StatusModel::launched(),
        Some(reason) => StatusModel::launch_failed(reason),
    }
}

/// The store after a launch attempt: the browser status is replaced as a
/// whole, whatever it was, and the user id is kept.
pub open spec fn launch_recorded(before: StoreModel, failure: Option<Seq<char>>) -> StoreModel {
    before.with_status(Some(status_after_launch(failure)))
}

/// Records the outcome of a launch attempt and answers the command.
///
/// After a successful start the store shows an initialized session without a
/// login and without an error, and the answer is `Ok(true)`. After a failed
/// one it shows an uninitialized session with the reason as its error, and
/// the answer is a `LaunchError` with the same reason. An earlier status is
/// overwritten either way: a second start is not refused.
pub fn start_browser_session(store: &mut SessionStore, outcome: SpawnOutcome) -> (r: Result<
    bool,
    LaunchError,
>)
    ensures
        final(store)@ == launch_recorded(old(store)@, outcome.failure()),
        match outcome {
            SpawnOutcome::Started => r == Ok::<bool, LaunchError>(true),
            SpawnOutcome::Failed(reason) => r matches Err(error) && error.reason@ == reason@,
        },
{
    match outcome {
        SpawnOutcome::Started => {
            store.set_browser_status(BrowserSessionStatus::launched());
            Ok(true)
        },
        SpawnOutcome::Failed(reason) => {
            store.set_browser_status(BrowserSessionStatus::launch_failed(reason.clone()));
            Err(LaunchError { reason })
        },
    }
}

/// A failed launch leaves the error set and the session uninitialized, and a
/// successful launch after it clears the error and marks the session
/// initialized. The user id is the same throughout.
pub proof fn lemma_relaunch_clears_error(before: StoreModel, reason: Seq<char>)
    ensures
        ({
            let failed = launch_recorded(before, Some(reason));
            let relaunched = launch_recorded(failed, None);
            &&& failed.reported_status().error == Some(reason)
            &&& !failed.reported_status().initialized
            &&& relaunched.reported_status().error is None
            &&& relaunched.reported_status().initialized
            &&& failed.user_id == before.user_id
            &&& relaunched.user_id == before.user_id
        }),
{
}

/// Whatever a launch attempt records is consistent, whatever the store held
/// before: an error is shown exactly for a failed launch, and never for an
/// initialized session. A launch also resets the login flag.
pub proof fn lemma_launch_leaves_consistent_store(before: StoreModel, failure: Option<Seq<char>>)
    ensures
        launch_recorded(before, failure).consistent(),
        launch_recorded(before, failure).reported_status().error == failure,
        launch_recorded(before, failure).reported_status().initialized == (failure is None),
        !launch_recorded(before, failure).reported_status().externally_logged_in,
{
}

} // verus!
