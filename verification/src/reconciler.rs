//! Reconciling the login state that the browser process reports with the
//! session store.
//!
//! The browser process writes a small JSON record from time to time. Whoever
//! polls reads that record, together with the current time, and hands both to
//! `check_external_login`, which decides whether the user counts as logged in
//! and notes the decision in the store.

use vstd::prelude::*;
use crate::json::{json_bool, json_document, json_member, json_u64, member, parse_document};
use crate::store::{SessionStore, StoreModel};

verus! {

/// A reported login older than this many milliseconds is no longer trusted.
pub const STALENESS_WINDOW_MILLIS: u64 = 30000;

/// The member of the status record that holds the login flag.
pub open spec fn login_key() -> Seq<char> {
    "isLoggedIn"@
}

/// The member of the status record that holds the time of writing, in
/// milliseconds since the Unix epoch.
pub open spec fn timestamp_key() -> Seq<char> {
    "timestampMillis"@
}

/// What the reconciler reads from the status record of the browser process.
#[derive(Debug, Clone, Copy, PartialEq, Eq)]
pub struct StatusArtifact {
    /// The browser process saw a logged-in session.
    pub is_logged_in: bool,
    /// When the record was written, in milliseconds since the Unix epoch.
    pub timestamp_millis: u64,
}

/// The status record that a parsed document holds. A document is a record
/// only if its login flag is a boolean and its timestamp an unsigned
/// integer: where either is missing or of another type there is no record,
/// and nothing is put in its place.
pub open spec fn artifact_of_document(document: serde_json::Value) -> Option<StatusArtifact> {
    match (
        json_bool(json_member(document, login_key())),
        json_u64(json_member(document, timestamp_key())),
    ) {
        (Some(flag), Some(millis)) => Some(
            StatusArtifact { is_logged_in: flag, timestamp_millis: millis },
        ),
        _ => None,
    }
}

/// The status record that `text` holds, or `None` where `text` is not JSON
/// or the document it holds is not a record.
pub open spec fn artifact_of_text(text: Seq<char>) -> Option<StatusArtifact> {
    match json_document(text) {
        Some(document) => artifact_of_document(document),
        None => None,
    }
}

/// A record written at `timestamp_millis` is recent at `now_millis` when it
/// is not from the future and less than the staleness window old.
pub open spec fn is_recent(timestamp_millis: u64, now_millis: u64) -> bool {
    timestamp_millis <= now_millis && now_millis - timestamp_millis < STALENESS_WINDOW_MILLIS
}

/// Whether a status record counts as a login at `now_millis`: it reports one,
/// and it is recent.
pub open spec fn login_confirmed(artifact: StatusArtifact, now_millis: u64) -> bool {
    artifact.is_logged_in && is_recent(artifact.timestamp_millis, now_millis)
}

/// The answer to a poll: without a record, be it missing, unreadable or
/// incomplete, the answer is "not logged in"; a record is judged by
/// `login_confirmed`.
pub open spec fn poll_answer(artifact: Option<StatusArtifact>, now_millis: u64) -> bool {
    match artifact {
        Some(found) => login_confirmed(found, now_millis),
        None => false,
    }
}

/// The characters of the text that the caller found, if any.
pub open spec fn text_found(text: Option<&str>) -> Option<Seq<char>> {
    match text {
        Some(content) => Some(content@),
        None => None,
    }
}

/// The status record read from what the caller found: `None` where there
/// was no text to read, the text is not JSON, or the document is not a
/// record.
pub open spec fn artifact_found(text: Option<Seq<char>>) -> Option<StatusArtifact> {
    match text {
        Some(content) => artifact_of_text(content),
        None => None,
    }
}

/// The store after a poll. With a record, a recorded browser status takes
/// the decision as its login flag, and a store without a browser status
/// stays as it is. Without a record, be it missing, unreadable or
/// incomplete, the store is not written to.
pub open spec fn poll_recorded(
    before: StoreModel,
    artifact: Option<StatusArtifact>,
    now_millis: u64,
) -> StoreModel {
    match artifact {
        Some(found) => before.with_login_observed(login_confirmed(found, now_millis)),
        None => before,
    }
}

/// Reads the login flag and the timestamp from a parsed document. Where
/// either is missing or of another type, the document is no record and the
/// result is `None`.
pub fn artifact_from_document(document: &serde_json::Value) -> (r: Option<StatusArtifact>)
    ensures
        r == artifact_of_document(*document),
{
    match member(document, "isLoggedIn").as_bool() {
        Some(is_logged_in) => match member(document, "timestampMillis").as_u64() {
            Some(timestamp_millis) => Some(StatusArtifact { is_logged_in, timestamp_millis }),
            None => None,
        },
        None => None,
    }
}

/// Parses the text of a status record. Text that is not JSON, such as a
/// record caught half written, gives `None`, and so does JSON that lacks a
/// boolean login flag or an unsigned timestamp.
pub fn read_artifact(text: &str) -> (r: Option<StatusArtifact>)
    ensures
        r == artifact_of_text(text@),
{
    match parse_document(text) {
        Ok(document) => artifact_from_document(&document),
        Err(_) => None,
    }
}

/// Decides whether a status record counts as a login at `now_millis`.
pub fn confirm_login(artifact: StatusArtifact, now_millis: u64) -> (r: bool)
    ensures
        r == login_confirmed(artifact, now_millis),
{
    artifact.is_logged_in && artifact.timestamp_millis <= now_millis && now_millis
        - artifact.timestamp_millis < STALENESS_WINDOW_MILLIS
}

/// Folds the outcome of reading the status record into the store and answers
/// the poll. With a record, the recorded browser status takes the decision as
/// its login flag; a store without a browser status is not written to.
/// Without a record, be it missing, unreadable or incomplete, the answer is
/// `false` and the store stays untouched.
pub fn reconcile(store: &mut SessionStore, artifact: Option<StatusArtifact>, now_millis: u64) -> (r:
    bool)
    ensures
        r == poll_answer(artifact, now_millis),
        final(store)@ == poll_recorded(old(store)@, artifact, now_millis),
{
    match artifact {
        Some(found) => {
            let confirmed = confirm_login(found, now_millis);
            store.record_external_login(confirmed);
            confirmed
        },
        None => false,
    }
}

/// Answers a poll for the external login. `artifact_text` is the content of
/// the status record, or `None` where it could not be read; `now_millis` is
/// the current time in milliseconds since the Unix epoch.
///
/// The answer is `true` only for a complete record that reports a login and
/// is recent. A record that is missing, is not JSON, or lacks a boolean
/// login flag or an unsigned timestamp is not a failure: it answers `false`,
/// whatever the time, and leaves the store as it was.
pub fn check_external_login(
    store: &mut SessionStore,
    artifact_text: Option<&str>,
    now_millis: u64,
) -> (r: bool)
    ensures
        r == poll_answer(artifact_found(text_found(artifact_text)), now_millis),
        final(store)@ == poll_recorded(
            old(store)@,
            artifact_found(text_found(artifact_text)),
            now_millis,
        ),
{
    let artifact = match artifact_text {
        Some(text) => read_artifact(text),
        None => None,
    };
    reconcile(store, artifact, now_millis)
}

/// A record written less than the staleness window ago, and not in the
/// future, counts exactly as it reports.
pub proof fn lemma_fresh_record_is_believed(artifact: StatusArtifact, now_millis: u64)
    requires
        0 <= now_millis - artifact.timestamp_millis < 30000,
    ensures
        login_confirmed(artifact, now_millis) == artifact.is_logged_in,
{
}

/// A record as old as the staleness window or older never counts as a login,
/// whatever it reports, and neither does one dated in the future.
pub proof fn lemma_stale_record_is_rejected(artifact: StatusArtifact, now_millis: u64)
    requires
        now_millis - artifact.timestamp_millis >= 30000 || artifact.timestamp_millis > now_millis,
    ensures
        !login_confirmed(artifact, now_millis),
        !poll_answer(Some(artifact), now_millis),
{
}

/// A poll answers `true` only on a record that reports a login and is
/// recent; a poll without a record answers `false`.
pub proof fn lemma_positive_answer_needs_fresh_login(
    artifact: Option<StatusArtifact>,
    now_millis: u64,
)
    ensures
        poll_answer(artifact, now_millis) ==> (artifact matches Some(found) && found.is_logged_in
            && 0 <= now_millis - found.timestamp_millis < 30000),
        artifact is None ==> !poll_answer(artifact, now_millis),
{
}

/// A document without a boolean login flag, or without an unsigned
/// timestamp, is no record: a poll on it answers `false` at every time and
/// does not write to the store, whatever the other member holds.
pub proof fn lemma_incomplete_record_answers_false(
    before: StoreModel,
    document: serde_json::Value,
    now_millis: u64,
)
    requires
        json_bool(json_member(document, login_key())) is None || json_u64(
            json_member(document, timestamp_key()),
        ) is None,
    ensures
        artifact_of_document(document) is None,
        !poll_answer(artifact_of_document(document), now_millis),
        poll_recorded(before, artifact_of_document(document), now_millis) == before,
{
}

/// A document is a record exactly when both members can be read, and the
/// record then holds what they hold.
pub proof fn lemma_complete_record_is_read(document: serde_json::Value)
    ensures
        artifact_of_document(document) is Some <==> (json_bool(
            json_member(document, login_key()),
        ) is Some && json_u64(json_member(document, timestamp_key())) is Some),
        artifact_of_document(document) matches Some(found) ==> (json_bool(
            json_member(document, login_key()),
        ) == Some(found.is_logged_in) && json_u64(json_member(document, timestamp_key())) == Some(
            found.timestamp_millis,
        )),
{
}

/// A poll changes nothing but the login flag of a recorded browser status:
/// the user id, and whether a status is recorded, whether the session is
/// initialized and which error it shows, are as before. A consistent store
/// stays consistent.
pub proof fn lemma_poll_touches_only_login_flag(
    before: StoreModel,
    artifact: Option<StatusArtifact>,
    now_millis: u64,
)
    ensures
        ({
            let after = poll_recorded(before, artifact, now_millis);
            &&& after.user_id == before.user_id
            &&& after.browser_status is Some == before.browser_status is Some
            &&& after.reported_status().initialized == before.reported_status().initialized
            &&& after.reported_status().error == before.reported_status().error
            &&& before.consistent() ==> after.consistent()
            &&& artifact is Some && before.browser_status is Some
                ==> after.reported_status().externally_logged_in == poll_answer(
                artifact,
                now_millis,
            )
        }),
{
}

} // verus!
