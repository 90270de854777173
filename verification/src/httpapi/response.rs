use vstd::prelude::*;
use crate::error::AppError;
use crate::user::{outcome_view, User, UserView};

verus! {

pub const OK: u16 = 200;

pub const CREATED: u16 = 201;

pub const BAD_REQUEST: u16 = 400;

pub const NOT_FOUND: u16 = 404;

/// What a response carries. `User` and `Message` go out as JSON objects:
/// the first with the fields `id`, `username` and `password`, the second
/// with the one field `message`.
#[derive(Clone, Debug, PartialEq, Eq)]
pub enum Body {
    Empty,
    User(User),
    Message(String),
}

pub enum BodyView {
    Empty,
    User(UserView),
    Message(Seq<char>),
}

impl View for Body {
    type V = BodyView;

    open spec fn view(&self) -> BodyView {
        match self {
            Body::Empty => BodyView::Empty,
            Body::User(user) => BodyView::User(user@),
            Body::Message(message) => BodyView::Message(message@),
        }
    }
}

/// An HTTP response: the status code and the body.
#[derive(Clone, Debug, PartialEq, Eq)]
pub struct Response {
    pub status: u16,
    pub body: Body,
}

pub struct ResponseView {
    pub status: u16,
    pub body: BodyView,
}

impl View for Response {
    type V = ResponseView;

    open spec fn view(&self) -> ResponseView {
        ResponseView { status: self.status, body: self.body@ }
    }
}

/// A response with the given status and no body.
pub open spec fn bare_response_of(status: u16) -> ResponseView {
    ResponseView { status, body: BodyView::Empty }
}

/// The response that reports a domain error: its status, and its message as
/// the body.
pub open spec fn error_response_of(error: AppError) -> ResponseView {
    ResponseView { status: error.status_of(), body: BodyView::Message(error.message_of()) }
}

/// The response to a get-user request, given what the query returned: 200
/// with the user, or the error's response.
pub open spec fn get_user_response_of(found: Result<UserView, AppError>) -> ResponseView {
    match found {
        Ok(user) => ResponseView { status: OK, body: BodyView::User(user) },
        Err(error) => error_response_of(error),
    }
}

/// The response to a create-user request, given what the command returned:
/// 201 with no body, or the error's response.
pub open spec fn post_user_response_of(created: Result<UserView, AppError>) -> ResponseView {
    match created {
        Ok(_) => bare_response_of(CREATED),
        Err(error) => error_response_of(error),
    }
}

pub fn bare_response(status: u16) -> (response: Response)
    ensures
        response@ == bare_response_of(status),
{
    Response { status, body: Body::Empty }
}

/// The one place where a domain error becomes a status and a message.
pub fn error_response(error: AppError) -> (response: Response)
    ensures
        response@ == error_response_of(error),
{
    Response { status: error.status(), body: Body::Message(error.message()) }
}

pub fn get_user_response(found: Result<User, AppError>) -> (response: Response)
    ensures
        response@ == get_user_response_of(outcome_view(found)),
{
    match found {
        Ok(user) => Response { status: OK, body: Body::User(user) },
        Err(error) => error_response(error),
    }
}

pub fn post_user_response(created: Result<User, AppError>) -> (response: Response)
    ensures
        response@ == post_user_response_of(outcome_view(created)),
{
    match created {
        Ok(_) => bare_response(CREATED),
        Err(error) => error_response(error),
    }
}

} // verus!
