use vstd::prelude::*;
use crate::error::AppError;
use crate::repository::UserRepository;
use crate::user::{outcome_view, User};

verus! {

/// The get-user query: asks the read repository for a user by id.
pub struct GetUser<Q: UserRepository> {
    pub repository: Q,
}

impl<Q: UserRepository> GetUser<Q> {
    pub fn new(repository: Q) -> (query: Self)
        ensures
            query.repository == repository,
    {
        GetUser { repository }
    }

    /// Fetches the user and hands back what the repository gave.
    pub fn execute(&self, id: i64) -> (found: Result<User, AppError>)
        ensures
            self.repository.may_find(id, outcome_view(found)),
            found matches Ok(user) ==> user.id == id,
    {
        self.repository.find_by_id(id)
    }
}

} // verus!
