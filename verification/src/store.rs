//! The process-wide configuration store and its reload protocol.
//!
//! One [`ConfigStore`] holds the active snapshot behind a verified
//! reader-writer lock: readers take whole snapshots, the watcher swaps in
//! whole replacements, and no reader can ever observe a half-updated
//! model. The reload decisions themselves are pure functions with exact
//! contracts: a failed initial load falls back to the zero-valued model,
//! while a failed reload leaves the previous model untouched.

use crate::config::{is_zero_model, Config};
use vstd::prelude::*;
use vstd::rwlock::{RwLock, RwLockPredicate};

verus! {

/// The lock predicate of the store: any whole snapshot may be stored.
pub struct AnySnapshot;

impl RwLockPredicate<Config> for AnySnapshot {
    open spec fn inv(self, v: Config) -> bool {
        true
    }
}

/// The shared holder of the active configuration snapshot.
///
/// All request handlers read through [`ConfigStore::snapshot`] and the
/// single watcher task writes through [`ConfigStore::replace`] or
/// [`ConfigStore::apply_reload`]; both sides go through one
/// reader-writer lock, so a replacement is atomic with respect to every
/// concurrent read and each snapshot taken is one self-consistent model,
/// never a mix of an old and a new one.
pub struct ConfigStore {
    lock: RwLock<Config, AnySnapshot>,
}

/// The model a fresh store starts from: the parsed document where the
/// initial load succeeded, the zero-valued model where it did not, so
/// that the service starts either way.
pub fn initial_model(parsed: Option<Config>) -> (r: Config)
    ensures
        parsed matches Some(m) ==> r == m,
        parsed is None ==> is_zero_model(r),
{
    match parsed {
        Some(m) => m,
        None => Config::default(),
    }
}

/// The model a store holds after one reload attempt: the parsed document
/// where parsing succeeded, the previous model untouched where it did
/// not. A malformed file after a valid load never reverts the store.
pub fn reloaded_model(current: Config, parsed: Option<Config>) -> (r: Config)
    ensures
        parsed matches Some(m) ==> r == m,
        parsed is None ==> r == current,
{
    match parsed {
        Some(m) => m,
        None => current,
    }
}

impl ConfigStore {
    /// Creates a store holding the given snapshot.
    pub fn new(initial: Config) -> ConfigStore {
        ConfigStore { lock: RwLock::new(initial, Ghost(AnySnapshot)) }
    }

    /// Creates a store from the outcome of the initial, best-effort load:
    /// the parsed document where there is one, the zero-valued model
    /// otherwise.
    pub fn load_initial(parsed: Option<Config>) -> ConfigStore {
        ConfigStore::new(initial_model(parsed))
    }

    /// Returns a whole copy of the active snapshot. The read lock is held
    /// only for the copy, never during the caller's own validation work,
    /// and the copy can never interleave two models.
    pub fn snapshot(&self) -> Config {
        let handle = self.lock.acquire_read();
        let current = handle.borrow().clone();
        handle.release_read();
        current
    }

    /// Atomically swaps in a whole new snapshot.
    pub fn replace(&self, new_model: Config) {
        let (_old, handle) = self.lock.acquire_write();
        handle.release_write(new_model);
    }

    /// Applies one reload attempt atomically: a parsed document replaces
    /// the snapshot, a failed parse keeps the current snapshot in place.
    pub fn apply_reload(&self, parsed: Option<Config>) {
        let (current, handle) = self.lock.acquire_write();
        let next = reloaded_model(current, parsed);
        handle.release_write(next);
    }
}

/// The state shared between the request handlers and the watcher task:
/// the configuration store they all consult.
pub struct AppState {
    pub valid_config: ConfigStore,
}

} // verus!
