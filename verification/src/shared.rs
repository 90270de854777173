//! One store of users behind a lock, so that the write side and the read
//! side of a container can hold the same store.

use std::sync::Arc;
use vstd::prelude::*;
use vstd::rwlock::{RwLock, RwLockPredicate};
use crate::error::AppError;
use crate::memory::UserStore;
use crate::repository::{UserRepository, UserWriteRepository};
use crate::user::{User, UserView};

verus! {

/// What the lock keeps of the store it guards: nothing beyond what holds of
/// every store.
pub struct AnyStore;

impl RwLockPredicate<UserStore> for AnyStore {
    open spec fn inv(self, store: UserStore) -> bool {
        true
    }
}

/// A handle to a store that other handles share. What the store holds
/// between two calls is for the other handles to change, so a call through
/// a handle promises what holds of every store.
#[derive(Clone)]
pub struct SharedStore {
    lock: Arc<RwLock<UserStore, AnyStore>>,
}

impl SharedStore {
    /// A handle to a new store with no users.
    pub fn new() -> (shared: Self) {
        SharedStore { lock: Arc::new(RwLock::new(UserStore::new(), Ghost(AnyStore))) }
    }
}

impl UserWriteRepository for SharedStore {
    /// Saves the user in the shared store, alone with the store while it
    /// does so.
    fn save(&self, username: String, password: String) -> (saved: Result<User, AppError>) {
        let (mut store, handle) = self.lock.acquire_write();
        let saved = store.save(username, password);
        handle.release_write(store);
        saved
    }
}

impl UserRepository for SharedStore {
    /// Fetches the user of this id from the shared store, or reports `NotFound`.
    fn find_by_id(&self, id: i64) -> (found: Result<User, AppError>)
        ensures
            id < 1 ==> found == Err::<User, AppError>(AppError::NotFound),
            found matches Ok(user) ==> user.id == id && id >= 1,
            found matches Err(error) ==> error == AppError::NotFound,
    {
        let handle = self.lock.acquire_read();
        let found = handle.borrow().find_by_id(id);
        handle.release_read();
        found
    }

    /// What a shared store may give for an id: a user of that id, where the
    /// id is one that a store gives out, or `NotFound`. Whether a user is
    /// stored under an id from 1 on is for the other handles to have
    /// settled; under an id below 1 there is none. A shared store has no
    /// other failure.
    open spec fn may_find(&self, id: i64, found: Result<UserView, AppError>) -> bool {
        match found {
            Ok(user) => user.id == id && id >= 1,
            Err(error) => error == AppError::NotFound,
        }
    }
}

} // verus!
