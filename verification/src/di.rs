use vstd::prelude::*;
use crate::command::CreateUser;
use crate::query::GetUser;
use crate::repository::{UserRepository, UserWriteRepository};

verus! {

/// Holds the one command and the one query of the service, each with its
/// repository, for the life of the process.
pub struct Container<R: UserWriteRepository, Q: UserRepository> {
    pub create_user_command: CreateUser<R>,
    pub get_user_query: GetUser<Q>,
}

impl<R: UserWriteRepository, Q: UserRepository> Container<R, Q> {
    pub fn new(write_repository: R, read_repository: Q) -> (container: Self)
        ensures
            container.create_user_command.repository == write_repository,
            container.get_user_query.repository == read_repository,
    {
        Container {
            create_user_command: CreateUser::new(write_repository),
            get_user_query: GetUser::new(read_repository),
        }
    }
}

} // verus!
