use vstd::prelude::*;

verus! {

/// A user as contracts see it.
pub struct UserView {
    pub id: i64,
    pub username: Seq<char>,
    pub password: Seq<char>,
}

/// A stored user. The storage assigns `id` when the user is created; the
/// password is kept as given.
#[derive(Clone, Debug, PartialEq, Eq)]
pub struct User {
    pub id: i64,
    pub username: String,
    pub password: String,
}

impl View for User {
    type V = UserView;

    open spec fn view(&self) -> UserView {
        UserView { id: self.id, username: self.username@, password: self.password@ }
    }
}

impl User {
    /// A second value with the same fields.
    pub fn duplicate(&self) -> (copy: User)
        ensures
            copy@ == self@,
    {
        User { id: self.id, username: self.username.clone(), password: self.password.clone() }
    }
}

/// What a command or a query returned, with the user taken by its view.
pub open spec fn outcome_view(outcome: Result<User, crate::error::AppError>) -> Result<
    UserView,
    crate::error::AppError,
> {
    match outcome {
        Ok(user) => Ok(user@),
        Err(error) => Err(error),
    }
}

} // verus!
