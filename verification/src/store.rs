//! The session store: the remembered user id and the browser session status.

use vstd::prelude::*;

verus! {

/// The characters of an optional string.
pub open spec fn text_of(s: Option<String>) -> Option<Seq<char>> {
    match s {
        Some(t) => Some(t@),
        None => None,
    }
}

/// What is known about the supervised browser session.
#[derive(Debug, PartialEq, Eq)]
pub struct BrowserSessionStatus {
    /// The browser process was started.
    pub initialized: bool,
    /// The browser was last seen logged in to the external site.
    pub externally_logged_in: bool,
    /// Why the last launch failed, if it did.
    pub error: Option<String>,
}

/// The mathematical content of a `BrowserSessionStatus`.
pub struct StatusModel {
    pub initialized: bool,
    pub externally_logged_in: bool,
    pub error: Option<Seq<char>>,
}

impl StatusModel {
    /// The status reported while no launch has been attempted.
    pub open spec fn uninitialized() -> StatusModel {
        StatusModel { initialized: false, externally_logged_in: false, error: None }
    }

    /// The status recorded when the browser process has started.
    pub open spec fn launched() -> StatusModel {
        StatusModel { initialized: true, externally_logged_in: false, error: None }
    }

    /// The status recorded when starting the browser process failed.
    pub open spec fn launch_failed(reason: Seq<char>) -> StatusModel {
        StatusModel { initialized: false, externally_logged_in: false, error: Some(reason) }
    }

    /// The same status with another login flag.
    pub open spec fn with_login(self, flag: bool) -> StatusModel {
        StatusModel { externally_logged_in: flag, ..self }
    }

    /// An error is recorded only for a session that is not initialized.
    pub open spec fn consistent(self) -> bool {
        self.error is Some ==> !self.initialized
    }
}

impl View for BrowserSessionStatus {
    type V = StatusModel;

    open spec fn view(&self) -> StatusModel {
        StatusModel {
            initialized: self.initialized,
            externally_logged_in: self.externally_logged_in,
            error: text_of(self.error),
        }
    }
}

impl Clone for BrowserSessionStatus {
    fn clone(&self) -> (r: Self)
        ensures
            r@ == self@,
    {
        let error = match &self.error {
            Some(reason) => Some(reason.clone()),
            None => None,
        };
        BrowserSessionStatus {
            initialized: self.initialized,
            externally_logged_in: self.externally_logged_in,
            error,
        }
    }
}

impl BrowserSessionStatus {
    /// The status reported while no launch has been attempted.
    pub fn uninitialized() -> (r: Self)
        ensures
            r@ == StatusModel::uninitialized(),
    {
        BrowserSessionStatus { initialized: false, externally_logged_in: false, error: None }
    }

    /// The status of a browser process that has just started.
    pub fn launched() -> (r: Self)
        ensures
            r@ == StatusModel::launched(),
    {
        BrowserSessionStatus { initialized: true, externally_logged_in: false, error: None }
    }

    /// The status after a launch that failed for `reason`.
    pub fn launch_failed(reason: String) -> (r: Self)
        ensures
            r@ == StatusModel::launch_failed(reason@),
    {
        BrowserSessionStatus { initialized: false, externally_logged_in: false, error: Some(reason) }
    }
}

/// The mathematical content of a `SessionStore`.
pub struct StoreModel {
    /// The authenticated user, if any.
    pub user_id: Option<Seq<char>>,
    /// The browser session status, once one has been recorded.
    pub browser_status: Option<StatusModel>,
}

impl StoreModel {
    /// The store of a freshly started application.
    pub open spec fn empty() -> StoreModel {
        StoreModel { user_id: None, browser_status: None }
    }

    /// The same store remembering another user id.
    pub open spec fn with_user_id(self, id: Option<Seq<char>>) -> StoreModel {
        StoreModel { user_id: id, ..self }
    }

    /// The same store holding another browser status.
    pub open spec fn with_status(self, status: Option<StatusModel>) -> StoreModel {
        StoreModel { browser_status: status, ..self }
    }

    /// The status a reader is given: the recorded one, or the uninitialized
    /// status while none was recorded.
    pub open spec fn reported_status(self) -> StatusModel {
        match self.browser_status {
            Some(status) => status,
            None => StatusModel::uninitialized(),
        }
    }

    /// Every recorded status is consistent.
    pub open spec fn consistent(self) -> bool {
        self.browser_status matches Some(status) ==> status.consistent()
    }

    /// The store after a login observation was folded in: a recorded status
    /// takes the flag, a store without a status stays as it is.
    pub open spec fn with_login_observed(self, flag: bool) -> StoreModel {
        match self.browser_status {
            Some(status) => self.with_status(Some(status.with_login(flag))),
            None => self,
        }
    }
}

/// The state shared by all commands: who is authenticated, and how the
/// supervised browser session is doing.
#[derive(Debug)]
pub struct SessionStore {
    user_id: Option<String>,
    browser_status: Option<BrowserSessionStatus>,
}

impl View for SessionStore {
    type V = StoreModel;

    closed spec fn view(&self) -> StoreModel {
        StoreModel {
            user_id: text_of(self.user_id),
            browser_status: match self.browser_status {
                Some(status) => Some(status@),
                None => None,
            },
        }
    }
}

impl SessionStore {
    /// The recorded browser status as a value, for contracts that speak of a
    /// mutator applied to it.
    pub closed spec fn recorded_status(&self) -> Option<BrowserSessionStatus> {
        self.browser_status
    }

    /// The recorded status is the one the model shows.
    pub proof fn lemma_recorded_status_view(&self)
        ensures
            self@.browser_status == match self.recorded_status() {
                Some(status) => Some(status@),
                None => None,
            },
    {
    }

    /// A store with no user and no browser status.
    pub fn new() -> (r: Self)
        ensures
            r@ == StoreModel::empty(),
    {
        SessionStore { user_id: None, browser_status: None }
    }

    /// Remembers `id` as the authenticated user, or forgets the user when
    /// `id` is `None`.
    pub fn set_user_id(&mut self, id: Option<String>)
        ensures
            final(self)@ == old(self)@.with_user_id(text_of(id)),
    {
        self.user_id = id;
    }

    /// The authenticated user, if any.
    pub fn get_user_id(&self) -> (r: Option<String>)
        ensures
            text_of(r) == self@.user_id,
    {
        match &self.user_id {
            Some(id) => Some(id.clone()),
            None => None,
        }
    }

    /// Forgets the authenticated user.
    pub fn clear_user_id(&mut self)
        ensures
            final(self)@ == old(self)@.with_user_id(None),
    {
        self.set_user_id(None);
    }

    /// Replaces the browser status as a whole.
    pub fn set_browser_status(&mut self, status: BrowserSessionStatus)
        ensures
            final(self)@ == old(self)@.with_status(Some(status@)),
    {
        self.browser_status = Some(status);
    }

    /// Applies `mutator` to the recorded browser status and records what it
    /// returns. A store without a status is left as it is, and `mutator` is
    /// not called.
    pub fn update_browser_status<F>(&mut self, mutator: F)
        where F: FnOnce(BrowserSessionStatus) -> BrowserSessionStatus
        requires
            old(self).recorded_status() matches Some(status) ==> mutator.requires((status,)),
        ensures
            final(self)@.user_id == old(self)@.user_id,
            match old(self).recorded_status() {
                Some(status) => final(self).recorded_status() matches Some(updated)
                    && mutator.ensures((status,), updated),
                None => final(self)@ == old(self)@,
            },
    {
        match self.browser_status.take() {
            Some(status) => {
                self.browser_status = Some(mutator(status));
            },
            None => {},
        }
    }

    /// Folds a login observation into the recorded browser status. A store
    /// without a status is left as it is.
    pub fn record_external_login(&mut self, flag: bool)
        ensures
            final(self)@ == old(self)@.with_login_observed(flag),
    {
        let set_flag = |status: BrowserSessionStatus| -> (updated: BrowserSessionStatus)
            ensures
                updated@ == status@.with_login(flag),
            {
                BrowserSessionStatus {
                    initialized: status.initialized,
                    externally_logged_in: flag,
                    error: status.error,
                }
            };
        self.update_browser_status(set_flag);
    }

    /// The browser status: the recorded one, or the uninitialized status
    /// while none was recorded.
    pub fn get_browser_status(&self) -> (r: BrowserSessionStatus)
        ensures
            r@ == self@.reported_status(),
    {
        match &self.browser_status {
            Some(status) => status.clone(),
            None => BrowserSessionStatus::uninitialized(),
        }
    }
}

/// One write to the user id of the store.
pub enum UserIdWrite {
    /// Remember this user, or nobody.
    Remember(Option<Seq<char>>),
    /// Forget the user.
    Forget,
}

impl UserIdWrite {
    /// The user id that the store shows right after this write.
    pub open spec fn written(self) -> Option<Seq<char>> {
        match self {
            UserIdWrite::Remember(id) => id,
            UserIdWrite::Forget => None,
        }
    }
}

/// The store after the writes `writes`, made in that order.
pub open spec fn after_writes(before: StoreModel, writes: Seq<UserIdWrite>) -> StoreModel
    decreases writes.len(),
{
    if writes.len() == 0 {
        before
    } else {
        after_writes(before, writes.drop_last()).with_user_id(writes.last().written())
    }
}

/// After any sequence of writes to the user id, the store shows what the
/// last of them wrote, and the browser status is the one from before.
pub proof fn lemma_last_write_wins(before: StoreModel, writes: Seq<UserIdWrite>)
    requires
        writes.len() > 0,
    ensures
        after_writes(before, writes).user_id == writes.last().written(),
        after_writes(before, writes).browser_status == before.browser_status,
    decreases writes.len(),
{
    if writes.len() > 1 {
        lemma_last_write_wins(before, writes.drop_last());
    } else {
        assert(after_writes(before, writes.drop_last()) == before);
    }
}

/// The store of a freshly started application is consistent, and writes to
/// the user id and login observations keep a store consistent. Replacing the
/// browser status by a consistent one gives a consistent store.
pub proof fn lemma_writes_keep_consistency(
    before: StoreModel,
    id: Option<Seq<char>>,
    flag: bool,
    status: StatusModel,
)
    ensures
        StoreModel::empty().consistent(),
        before.consistent() ==> before.with_user_id(id).consistent(),
        before.consistent() ==> before.with_login_observed(flag).consistent(),
        status.consistent() ==> before.with_status(Some(status)).consistent(),
{
}

/// A store that was never given a browser status reports an uninitialized
/// session, not logged in and without an error, whatever was written to its
/// user id.
pub proof fn lemma_unset_status_reads_uninitialized(writes: Seq<UserIdWrite>)
    ensures
        after_writes(StoreModel::empty(), writes).reported_status() == (StatusModel {
            initialized: false,
            externally_logged_in: false,
            error: None,
        }),
    decreases writes.len(),
{
    if writes.len() > 0 {
        lemma_unset_status_reads_uninitialized(writes.drop_last());
    }
}

} // verus!
