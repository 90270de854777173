use user_api::error::AppError;
use user_api::httpapi::response::{
    bare_response, error_response, get_user_response, post_user_response, Body, Response,
};
use user_api::memory::UserStore;
use user_api::repository::UserRepository;
use user_api::user::User;

fn user(id: i64, username: &str, password: &str) -> User {
    User { id, username: username.to_owned(), password: password.to_owned() }
}

#[test]
fn error_maps_to_status_and_message() {
    assert_eq!(AppError::NotFound.status(), 404);
    assert_eq!(AppError::NotFound.message(), "not found");
    assert_eq!(AppError::InternalError.status(), 500);
    assert_eq!(AppError::InternalError.message(), "internal server error");
}

#[test]
fn error_response_carries_the_message() {
    assert_eq!(
        error_response(AppError::NotFound),
        Response { status: 404, body: Body::Message("not found".to_owned()) }
    );
    assert_eq!(
        error_response(AppError::InternalError),
        Response { status: 500, body: Body::Message("internal server error".to_owned()) }
    );
}

#[test]
fn get_user_response_for_each_outcome() {
    assert_eq!(
        get_user_response(Ok(user(4, "ada", "pw"))),
        Response { status: 200, body: Body::User(user(4, "ada", "pw")) }
    );
    assert_eq!(get_user_response(Err(AppError::NotFound)), error_response(AppError::NotFound));
    assert_eq!(
        get_user_response(Err(AppError::InternalError)),
        error_response(AppError::InternalError)
    );
}

#[test]
fn post_user_response_for_each_outcome() {
    assert_eq!(
        post_user_response(Ok(user(4, "ada", "pw"))),
        Response { status: 201, body: Body::Empty }
    );
    assert_eq!(post_user_response(Err(AppError::NotFound)), error_response(AppError::NotFound));
    assert_eq!(
        post_user_response(Err(AppError::InternalError)),
        error_response(AppError::InternalError)
    );
}

#[test]
fn bare_response_has_no_body() {
    assert_eq!(bare_response(404), Response { status: 404, body: Body::Empty });
}

#[test]
fn duplicate_keeps_the_fields() {
    let ada = user(9, "ada", "pw");
    assert_eq!(ada.duplicate(), ada);
}

#[test]
fn new_store_is_empty() {
    let store = UserStore::new();
    assert_eq!(store.len(), 0);
    assert_eq!(store.find_by_id(1), Err(AppError::NotFound));
}

#[test]
fn store_gives_out_ids_from_one() {
    let mut store = UserStore::new();
    assert_eq!(store.save("a".to_owned(), "x".to_owned()), Ok(user(1, "a", "x")));
    assert_eq!(store.save("b".to_owned(), "y".to_owned()), Ok(user(2, "b", "y")));
    assert_eq!(store.save("c".to_owned(), "x".to_owned()), Ok(user(3, "c", "x")));
    assert_eq!(store.len(), 3);
    assert_eq!(store.find_by_id(1), Ok(user(1, "a", "x")));
    assert_eq!(store.find_by_id(2), Ok(user(2, "b", "y")));
    assert_eq!(store.find_by_id(3), Ok(user(3, "c", "x")));
}

#[test]
fn store_refuses_a_taken_username_and_stays_as_it_was() {
    let mut store = UserStore::new();
    assert_eq!(store.save("a".to_owned(), "x".to_owned()), Ok(user(1, "a", "x")));
    assert_eq!(store.save("a".to_owned(), "x".to_owned()), Err(AppError::InternalError));
    assert_eq!(store.save("a".to_owned(), "other".to_owned()), Err(AppError::InternalError));
    assert_eq!(store.len(), 1);
    assert_eq!(store.find_by_id(1), Ok(user(1, "a", "x")));
    assert_eq!(store.save("A".to_owned(), "x".to_owned()), Ok(user(2, "A", "x")));
}

#[test]
fn store_finds_nothing_outside_its_ids() {
    let mut store = UserStore::new();
    assert_eq!(store.save("a".to_owned(), "x".to_owned()), Ok(user(1, "a", "x")));
    assert_eq!(store.find_by_id(0), Err(AppError::NotFound));
    assert_eq!(store.find_by_id(2), Err(AppError::NotFound));
    assert_eq!(store.find_by_id(-1), Err(AppError::NotFound));
    assert_eq!(store.find_by_id(i64::MAX), Err(AppError::NotFound));
    assert_eq!(store.find_by_id(i64::MIN), Err(AppError::NotFound));
}

#[test]
fn store_reads_are_repeatable() {
    let mut store = UserStore::new();
    assert_eq!(store.save("a".to_owned(), "x".to_owned()), Ok(user(1, "a", "x")));
    assert_eq!(store.find_by_id(1), store.find_by_id(1));
    assert_eq!(store.find_by_id(5), store.find_by_id(5));
}
