//! The HTTP side of the service: the route table, the two request handlers,
//! and the server that ties them to one container.

pub mod response;
pub mod route;

use std::sync::Arc;
use vstd::prelude::*;
use crate::di::Container;
use crate::error::AppError;
use crate::repository::{UserRepository, UserWriteRepository};
use crate::httpapi::response::{
    bare_response, bare_response_of, error_response_of, get_user_response, get_user_response_of,
    post_user_response, post_user_response_of, BodyView, Response, ResponseView, BAD_REQUEST,
    CREATED, NOT_FOUND, OK,
};
use crate::httpapi::route::{route, route_of, Method, Route};
use crate::user::UserView;

verus! {

/// The decoded body of a create-user request.
#[derive(Clone, Debug, PartialEq, Eq)]
pub struct CreateUserRequest {
    pub username: String,
    pub password: String,
}

/// A request as the server sees it: the method, the path, and the body
/// decoded as a create-user request, where it could be decoded as one.
#[derive(Clone, Debug, PartialEq, Eq)]
pub struct Request {
    pub method: Method,
    pub path: String,
    pub payload: Option<CreateUserRequest>,
}

/// The responses that a get-user request for `id` can get: that to one of
/// the outcomes that the read repository may give, which is 200 with a user
/// of that id, or the response of an error.
pub open spec fn answers_get_user<Q: UserRepository>(
    repository: Q,
    id: i64,
    response: ResponseView,
) -> bool {
    exists|found: Result<UserView, AppError>|
        {
            &&& #[trigger] repository.may_find(id, found)
            &&& found matches Ok(user) ==> user.id == id
            &&& response == get_user_response_of(found)
        }
}

/// The responses that a create-user request can get: that to one of the
/// outcomes that the write repository may give, which is 201 with no body,
/// or the response of an internal error.
pub open spec fn answers_post_user<R: UserWriteRepository>(
    repository: R,
    username: Seq<char>,
    password: Seq<char>,
    response: ResponseView,
) -> bool {
    exists|created: Result<UserView, AppError>|
        {
            &&& #[trigger] repository.may_save(username, password, created)
            &&& created matches Ok(user) ==> user.username == username && user.password
                == password
            &&& created matches Err(error) ==> error == AppError::InternalError
            &&& response == post_user_response_of(created)
        }
}

/// The decoded body of a request as contracts see it: the username and the
/// password.
pub open spec fn payload_view(payload: Option<CreateUserRequest>) -> Option<
    (Seq<char>, Seq<char>),
> {
    match payload {
        Some(request) => Some((request.username@, request.password@)),
        None => None,
    }
}

/// The responses that a request can get. Where the route table or the
/// payload settles the matter there is one; where a repository is asked,
/// those to the outcomes that it may give.
pub open spec fn answers<R: UserWriteRepository, Q: UserRepository>(
    container: Container<R, Q>,
    method: Method,
    path: Seq<u8>,
    payload: Option<(Seq<char>, Seq<char>)>,
    response: ResponseView,
) -> bool {
    match route_of(method, path) {
        Route::GetUser(id) => answers_get_user(container.get_user_query.repository, id, response),
        Route::CreateUser => match payload {
            Some((username, password)) => answers_post_user(
                container.create_user_command.repository,
                username,
                password,
                response,
            ),
            None => response == bare_response_of(BAD_REQUEST),
        },
        Route::BadRequest => response == bare_response_of(BAD_REQUEST),
        Route::NotFound => response == bare_response_of(NOT_FOUND),
    }
}

/// A get-user request gets 200 with a user of the id asked for, or the
/// response of one of the two errors, whatever the repository.
pub proof fn lemma_get_user_answers<Q: UserRepository>(
    repository: Q,
    id: i64,
    response: ResponseView,
)
    requires
        answers_get_user(repository, id, response),
    ensures
        response == error_response_of(AppError::NotFound) || response == error_response_of(
            AppError::InternalError,
        ) || (response.status == OK && (response.body matches BodyView::User(user) && user.id
            == id)),
{
}

/// A create-user request gets 201 with no body, or the response of an
/// internal error, whatever the repository.
pub proof fn lemma_post_user_answers<R: UserWriteRepository>(
    repository: R,
    username: Seq<char>,
    password: Seq<char>,
    response: ResponseView,
)
    requires
        answers_post_user(repository, username, password, response),
    ensures
        response == bare_response_of(CREATED) || response == error_response_of(
            AppError::InternalError,
        ),
{
}

/// Answers `GET /users/{id}`: runs the query and turns what it returned
/// into a response.
pub fn get_user<R: UserWriteRepository, Q: UserRepository>(
    container: &Container<R, Q>,
    id: i64,
) -> (response: Response)
    ensures
        answers_get_user(container.get_user_query.repository, id, response@),
{
    let found = container.get_user_query.execute(id);
    get_user_response(found)
}

/// Answers `POST /users`: runs the command and turns what it returned into
/// a response.
pub fn post_user<R: UserWriteRepository, Q: UserRepository>(
    container: &Container<R, Q>,
    payload: CreateUserRequest,
) -> (response: Response)
    ensures
        answers_post_user(
            container.create_user_command.repository,
            payload.username@,
            payload.password@,
            response@,
        ),
{
    let created = container.create_user_command.execute(payload.username, payload.password);
    post_user_response(created)
}

/// The server: the port it listens on and the container it serves from.
pub struct Server<R: UserWriteRepository, Q: UserRepository> {
    port: u16,
    container: Arc<Container<R, Q>>,
}

impl<R: UserWriteRepository, Q: UserRepository> Server<R, Q> {
    pub closed spec fn port_of(&self) -> u16 {
        self.port
    }

    pub closed spec fn container_of(&self) -> Container<R, Q> {
        *self.container
    }

    pub fn new(port: u16, container: Arc<Container<R, Q>>) -> (server: Self)
        ensures
            server.port_of() == port,
            server.container_of() == *container,
    {
        Server { port, container }
    }

    pub fn port(&self) -> (port: u16)
        ensures
            port == self.port_of(),
    {
        self.port
    }

    /// The address to listen on: every interface, at the server's port.
    pub fn bind_address(&self) -> (address: ([u8; 4], u16))
        ensures
            address.0@ == seq![0u8, 0u8, 0u8, 0u8],
            address.1 == self.port_of(),
    {
        let interfaces: [u8; 4] = [0, 0, 0, 0];
        assert(interfaces@ =~= seq![0u8, 0u8, 0u8, 0u8]);
        (interfaces, self.port)
    }

    /// Answers one request: looks it up in the route table and hands it to
    /// the handler of its route.
    pub fn handle(&self, request: Request) -> (response: Response)
        ensures
            answers(
                self.container_of(),
                request.method,
                vstd::utf8::encode_utf8(request.path@),
                payload_view(request.payload),
                response@,
            ),
    {
        match route(request.method, request.path.as_str()) {
            Route::GetUser(id) => get_user(&self.container, id),
            Route::CreateUser => match request.payload {
                Some(payload) => post_user(&self.container, payload),
                None => bare_response(BAD_REQUEST),
            },
            Route::BadRequest => bare_response(BAD_REQUEST),
            Route::NotFound => bare_response(NOT_FOUND),
        }
    }
}

} // verus!
