use vstd::prelude::*;
use crate::error::AppError;
use crate::repository::UserWriteRepository;
use crate::user::{outcome_view, User};

verus! {

/// The create-user command: hands the new user to the write repository.
pub struct CreateUser<R: UserWriteRepository> {
    pub repository: R,
}

impl<R: UserWriteRepository> CreateUser<R> {
    pub fn new(repository: R) -> (command: Self)
        ensures
            command.repository == repository,
    {
        CreateUser { repository }
    }

    /// Saves the user and hands back what the repository gave.
    pub fn execute(&self, username: String, password: String) -> (created: Result<User, AppError>)
        ensures
            self.repository.may_save(username@, password@, outcome_view(created)),
            created matches Ok(user) ==> user@.username == username@ && user@.password
                == password@,
            created matches Err(error) ==> error == AppError::InternalError,
    {
        self.repository.save(username, password)
    }
}

} // verus!
