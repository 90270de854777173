use vstd::prelude::*;
use crate::error::AppError;
use crate::user::{outcome_view, User, UserView};

verus! {

/// The write side of the storage: persists a new user.
pub trait UserWriteRepository {
    /// Whether the storage behind this repository, as it stands, may give
    /// `saved` when asked to save a user with this username and password.
    /// A repository that says nothing of its storage may give anything.
    open spec fn may_save(
        &self,
        username: Seq<char>,
        password: Seq<char>,
        saved: Result<UserView, AppError>,
    ) -> bool {
        true
    }

    /// Stores a new user under a fresh id and returns it. Every failure, a
    /// username that is already stored included, is an `InternalError`.
    fn save(&self, username: String, password: String) -> (saved: Result<User, AppError>)
        ensures
            self.may_save(username@, password@, outcome_view(saved)),
            saved matches Ok(user) ==> user@.username == username@ && user@.password
                == password@,
            saved matches Err(error) ==> error == AppError::InternalError,
    ;
}

/// The read side of the storage: fetches a user by id.
pub trait UserRepository {
    /// Whether the storage behind this repository, as it stands, may give
    /// `found` when asked for the user with this id. A repository that says
    /// nothing of its storage may give anything.
    open spec fn may_find(&self, id: i64, found: Result<UserView, AppError>) -> bool {
        true
    }

    /// The user stored under `id`; `NotFound` where there is none,
    /// `InternalError` on any other failure.
    fn find_by_id(&self, id: i64) -> (found: Result<User, AppError>)
        ensures
            self.may_find(id, outcome_view(found)),
            found matches Ok(user) ==> user.id == id,
    ;
}

} // verus!
