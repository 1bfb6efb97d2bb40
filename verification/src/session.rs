//! The watch-session lifecycle: one slot holding at most one active session,
//! with atomic replace and idempotent stop. The platform watch handle and the
//! debounce timer live outside the library, beside this state; the caller
//! tears the old handle down (`stop_watching`), opens the new native watch,
//! and installs the result (`start_watching`) — all under one lock, so no
//! moment exists with two sessions delivering.
//!
//! Each installed session carries a fresh tag, drawn from a counter that
//! never repeats. A delivery is accepted only when its tag is the installed
//! session's; batches of a torn-down session are thereby excluded.

use vstd::prelude::*;

use crate::config::WatchConfig;

verus! {

/// One active watch session: the watched root, the configuration captured
/// when the session was opened, and the tag its deliveries carry.
pub struct WatchSession {
    /// The watched root, as path components.
    pub root: Vec<String>,
    /// The configuration captured at open time.
    pub config: WatchConfig,
    /// The tag identifying this session's deliveries.
    pub session_id: u64,
}

/// Why starting a watch failed.
#[derive(Debug)]
pub enum WatchError {
    /// The native registration failed: bad path, permissions, or platform
    /// resource limits. The description comes from the native layer.
    OpenFailed(String),
}

/// File watcher state: the single session slot, plus the counter that tags
/// sessions so that a replaced session's deliveries are distinguishable from
/// the new session's.
pub struct FileWatcherState {
    /// The installed session, if any. At most one at any instant.
    pub session: Option<WatchSession>,
    /// The tag the next installed session will carry.
    pub next_id: u64,
}

/// A delivery tagged `session_id` is accepted only while a session carrying
/// that tag is installed.
pub open spec fn spec_accepts_delivery(state: FileWatcherState, session_id: u64) -> bool {
    match state.session {
        Some(w) => w.session_id == session_id,
        None => false,
    }
}

impl FileWatcherState {
    /// Session tags are drawn from the counter, so an installed session's tag
    /// is always below it; a tag handed out earlier can never recur.
    pub open spec fn wf(self) -> bool {
        match self.session {
            Some(w) => w.session_id < self.next_id,
            None => true,
        }
    }

    pub fn new() -> (s: Self)
        ensures
            s.session is None,
            s.next_id == 0,
            s.wf(),
    {
        FileWatcherState { session: None, next_id: 0 }
    }
}

/// Stops watching: empties the slot and returns what was installed, so the
/// caller can release the native handle. Idempotent — stopping an empty slot
/// is a no-op, never an error. Afterwards no delivery of any tag is accepted.
pub fn stop_watching(state: &mut FileWatcherState) -> (r: Option<WatchSession>)
    ensures
        final(state).session is None,
        final(state).next_id == old(state).next_id,
        r == old(state).session,
        final(state).wf(),
        forall|id: u64| !spec_accepts_delivery(*final(state), id),
{
    state.session.take()
}

/// Installs a freshly opened session, or records that the native open
/// failed. The caller tears the previous session down first (`stop_watching`)
/// and opens the native watch in between, so that the old handle is released
/// before the new one delivers; `open_outcome` is what the native open
/// returned. On failure nothing is installed and the error is surfaced.
pub fn start_watching(
    state: &mut FileWatcherState,
    root: Vec<String>,
    config: WatchConfig,
    open_outcome: Result<(), String>,
) -> (r: Result<u64, WatchError>)
    requires
        old(state).session is None,
        old(state).next_id < u64::MAX,
    ensures
        final(state).wf(),
        match open_outcome {
            Ok(_) => {
                &&& r == Ok::<u64, WatchError>(old(state).next_id)
                &&& final(state).session == Some(
                    (WatchSession { root, config, session_id: old(state).next_id }),
                )
                &&& final(state).next_id == old(state).next_id + 1
            },
            Err(e) => {
                &&& r == Err::<u64, WatchError>(WatchError::OpenFailed(e))
                &&& final(state).session is None
                &&& final(state).next_id == old(state).next_id
            },
        },
{
    match open_outcome {
        Ok(_) => {
            let id = state.next_id;
            state.session = Some(WatchSession { root, config, session_id: id });
            state.next_id = id + 1;
            Ok(id)
        },
        Err(e) => Err(WatchError::OpenFailed(e)),
    }
}

/// Whether a delivery tagged `session_id` should be let through: only while
/// the session carrying that tag is the installed one.
pub fn delivery_allowed(state: &FileWatcherState, session_id: u64) -> (r: bool)
    ensures
        r == spec_accepts_delivery(*state, session_id),
{
    match &state.session {
        Some(w) => w.session_id == session_id,
        None => false,
    }
}

/// Replacing the session — teardown, then a successful install — leaves
/// exactly one active session, and a delivery tag accepted before the
/// replacement is no longer accepted afterwards: no batch of the old session
/// can pass the acceptance check once the new session is installed.
pub proof fn lemma_replace_is_exclusive(
    pre: FileWatcherState,
    mid: FileWatcherState,
    post: FileWatcherState,
    root: Vec<String>,
    config: WatchConfig,
    old_id: u64,
)
    requires
        pre.wf(),
        spec_accepts_delivery(pre, old_id),
        // `mid` is `pre` after `stop_watching`
        mid.session is None,
        mid.next_id == pre.next_id,
        // `post` is `mid` after a successful `start_watching`
        post.session == Some((WatchSession { root, config, session_id: mid.next_id })),
        post.next_id == mid.next_id + 1,
    ensures
        post.session is Some,
        spec_accepts_delivery(post, mid.next_id),
        !spec_accepts_delivery(post, old_id),
{
}

} // verus!
