//! A store of users held in memory, which numbers its users from 1 in the
//! order in which they were saved and never fails but for a username that
//! is taken or a store that is full.

use vstd::prelude::*;
use crate::error::AppError;
use crate::httpapi::answers_get_user;
use crate::httpapi::response::{
    bare_response_of, error_response_of, get_user_response_of, post_user_response_of, BodyView,
    ResponseView, CREATED, OK,
};
use crate::repository::UserRepository;
use crate::user::{outcome_view, User, UserView};

verus! {

/// The most users that a store holds: every id fits an `i64`.
pub open spec fn capacity() -> int {
    i64::MAX as int
}

/// Whether a user with this username is among `users`.
pub open spec fn username_taken(users: Seq<UserView>, username: Seq<char>) -> bool {
    exists|i: int| 0 <= i < users.len() && (#[trigger] users[i]).username == username
}

/// Whether a user with this id is among `users`.
pub open spec fn id_stored(users: Seq<UserView>, id: i64) -> bool {
    exists|i: int| 0 <= i < users.len() && (#[trigger] users[i]).id == id
}

/// What holds of the users of every store: the user at position `i` has the
/// id `i + 1`, and no two have the same username.
pub open spec fn consistent(users: Seq<UserView>) -> bool {
    &&& users.len() <= capacity()
    &&& forall|i: int| 0 <= i < users.len() ==> (#[trigger] users[i]).id == i + 1
    &&& forall|i: int, j: int|
        0 <= i < j < users.len() ==> (#[trigger] users[i]).username != (
        #[trigger] users[j]).username
}

/// What saving a user returns: the new user, with the next id, or an
/// internal error where the username is taken or the store is full.
pub open spec fn saved_of(users: Seq<UserView>, username: Seq<char>, password: Seq<char>) -> Result<
    UserView,
    AppError,
> {
    if username_taken(users, username) || users.len() >= capacity() {
        Err(AppError::InternalError)
    } else {
        Ok(UserView { id: (users.len() + 1) as i64, username, password })
    }
}

/// The users after saving one: with the new user at the end, or unchanged
/// where saving failed.
pub open spec fn after_save(users: Seq<UserView>, username: Seq<char>, password: Seq<char>) -> Seq<
    UserView,
> {
    match saved_of(users, username, password) {
        Ok(user) => users.push(user),
        Err(_) => users,
    }
}

/// What fetching a user by id returns: the user at the id's position, or
/// `NotFound` where the id is none of the ids given out.
pub open spec fn found_of(users: Seq<UserView>, id: i64) -> Result<UserView, AppError> {
    if 1 <= id <= users.len() {
        Ok(users[id - 1])
    } else {
        Err(AppError::NotFound)
    }
}

/// The users of a store, in the order in which they were saved.
pub struct UserStore {
    users: Vec<User>,
}

impl View for UserStore {
    type V = Seq<UserView>;

    closed spec fn view(&self) -> Seq<UserView> {
        Seq::new(self.users@.len(), |i: int| self.users@[i]@)
    }
}

impl UserStore {
    #[verifier::type_invariant]
    spec fn valid(&self) -> bool {
        consistent(self@)
    }

    /// A store with no users.
    pub fn new() -> (store: Self)
        ensures
            store@ == Seq::<UserView>::empty(),
    {
        let store = UserStore { users: Vec::new() };
        assert(store@ =~= Seq::<UserView>::empty());
        store
    }

    /// The number of users stored. The users of a store are consistent.
    pub fn len(&self) -> (n: usize)
        ensures
            n == self@.len(),
            consistent(self@),
    {
        proof {
            use_type_invariant(self);
        }
        self.users.len()
    }

    /// Saves a new user under the next id and returns it.
    pub fn save(&mut self, username: String, password: String) -> (saved: Result<User, AppError>)
        ensures
            outcome_view(saved) == saved_of(old(self)@, username@, password@),
            final(self)@ == after_save(old(self)@, username@, password@),
            consistent(old(self)@),
            consistent(final(self)@),
    {
        proof {
            use_type_invariant(&*self);
        }
        let n: usize = self.users.len();
        let mut i: usize = 0;
        while i < n
            invariant
                0 <= i <= n,
                n == self.users@.len(),
                self@ == old(self)@,
                consistent(self@),
                self@.len() == n,
                forall|k: int| 0 <= k < i ==> (#[trigger] self@[k]).username != username@,
            decreases n - i,
        {
            if self.users[i].username == username {
                assert(self@[i as int].username == username@);
                return Err(AppError::InternalError);
            }
            i = i + 1;
        }
        if n as u64 >= 9223372036854775807u64 {
            return Err(AppError::InternalError);
        }
        let user = User { id: (n as u64 + 1) as i64, username, password };
        let copy = user.duplicate();
        let mut emptied = UserStore::new();
        std::mem::swap(self, &mut emptied);
        let mut users = emptied.users;
        users.push(user);
        let ghost grown = Seq::new(users@.len(), |i: int| users@[i]@);
        assert(grown =~= old(self)@.push(copy@));
        *self = UserStore { users };
        assert(self@ =~= grown);
        Ok(copy)
    }
}

impl UserRepository for UserStore {
    /// A store gives what it holds, and nothing else.
    open spec fn may_find(&self, id: i64, found: Result<UserView, AppError>) -> bool {
        found == found_of(self@, id)
    }

    /// Fetches the user saved under `id`.
    fn find_by_id(&self, id: i64) -> (found: Result<User, AppError>)
        ensures
            outcome_view(found) == found_of(self@, id),
    {
        proof {
            use_type_invariant(self);
        }
        if id >= 1 && id as u64 <= self.users.len() as u64 {
            let user = self.users[(id - 1) as usize].duplicate();
            Ok(user)
        } else {
            Err(AppError::NotFound)
        }
    }
}

/// Saving keeps the users consistent.
pub proof fn lemma_save_keeps_consistent(
    users: Seq<UserView>,
    username: Seq<char>,
    password: Seq<char>,
)
    requires
        consistent(users),
    ensures
        consistent(after_save(users, username, password)),
{
}

/// Fetching finds a user exactly where one with that id is stored, and what
/// it finds is that user.
pub proof fn lemma_found_iff_stored(users: Seq<UserView>, id: i64)
    requires
        consistent(users),
    ensures
        id_stored(users, id) <==> found_of(users, id) is Ok,
        found_of(users, id) matches Ok(user) ==> user.id == id && users.contains(user),
        !id_stored(users, id) ==> found_of(users, id) == Err::<UserView, AppError>(
            AppError::NotFound,
        ),
{
    if 1 <= id <= users.len() {
        assert(users[id - 1].id == id);
    }
}

/// Creating a user whose username is not stored yet, in a store that is not
/// full, is answered with 201 and no body; fetching the id that the user
/// was given is then answered with 200 and that user, under the username
/// and the password that were sent.
pub proof fn lemma_created_user_is_fetched(
    users: Seq<UserView>,
    username: Seq<char>,
    password: Seq<char>,
)
    requires
        consistent(users),
        !username_taken(users, username),
        users.len() < capacity(),
    ensures
        post_user_response_of(saved_of(users, username, password)) == bare_response_of(CREATED),
        saved_of(users, username, password) matches Ok(user) && user.username == username
            && user.password == password && !id_stored(users, user.id)
            && get_user_response_of(found_of(after_save(users, username, password), user.id))
            == (ResponseView { status: OK, body: BodyView::User(user) }),
{
    let user = saved_of(users, username, password)->Ok_0;
    if id_stored(users, user.id) {
        let i = choose|i: int| 0 <= i < users.len() && (#[trigger] users[i]).id == user.id;
        assert(users[i].id == i + 1);
    }
}

/// Fetching an id under which no user is stored is answered with 404 and
/// the message "not found".
pub proof fn lemma_absent_user_is_not_found(users: Seq<UserView>, id: i64)
    requires
        consistent(users),
        !id_stored(users, id),
    ensures
        get_user_response_of(found_of(users, id)) == (ResponseView {
            status: 404,
            body: BodyView::Message("not found"@),
        }),
{
    lemma_found_iff_stored(users, id);
}

/// Of two requests to create a user with one username, whatever their
/// passwords, in a store that is not full and does not hold the username,
/// the first is answered with 201 and the second with 500 and the message
/// "internal server error"; the second leaves the store as the first left
/// it.
pub proof fn lemma_second_username_is_refused(
    users: Seq<UserView>,
    username: Seq<char>,
    first_password: Seq<char>,
    second_password: Seq<char>,
)
    requires
        consistent(users),
        !username_taken(users, username),
        users.len() < capacity(),
    ensures
        post_user_response_of(saved_of(users, username, first_password)).status == 201,
        post_user_response_of(
            saved_of(after_save(users, username, first_password), username, second_password),
        ) == (ResponseView {
            status: 500,
            body: BodyView::Message("internal server error"@),
        }),
        after_save(after_save(users, username, first_password), username, second_password)
            == after_save(users, username, first_password),
{
    let after = after_save(users, username, first_password);
    assert(after[users.len() as int].username == username);
}

/// A username that is stored is refused, whatever else the store holds.
pub proof fn lemma_taken_username_is_refused(
    users: Seq<UserView>,
    username: Seq<char>,
    password: Seq<char>,
)
    requires
        username_taken(users, username),
    ensures
        post_user_response_of(saved_of(users, username, password)) == error_response_of(
            AppError::InternalError,
        ),
        after_save(users, username, password) == users,
{
}

/// Where a store is the read repository, a get-user request gets exactly
/// one response: that to what the store holds under the id.
pub proof fn lemma_store_answers_exactly(store: UserStore, id: i64, response: ResponseView)
    requires
        answers_get_user(store, id, response),
    ensures
        response == get_user_response_of(found_of(store@, id)),
{
}

/// Two fetches of one id with no save between them are answered alike:
/// the response to a fetch depends on the stored users and the id alone,
/// and a fetch leaves the users as they were.
pub proof fn lemma_repeated_fetch_agrees(
    users: Seq<UserView>,
    id: i64,
    first: Result<User, AppError>,
    second: Result<User, AppError>,
)
    requires
        outcome_view(first) == found_of(users, id),
        outcome_view(second) == found_of(users, id),
    ensures
        get_user_response_of(outcome_view(first)) == get_user_response_of(outcome_view(second)),
{
}

} // verus!
