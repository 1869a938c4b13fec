use listers::config::ConfigError;
use listers::error::{
    expect_rows, expect_some_rows, handle_api_error, APIError, Failure, Refusal, StoreError,
};
use listers::pagination::{check_page, page_bounds, page_offset, OFFSET, PAGE_LIMIT};
use listers::profile::{RelationshipStatus, SearchParams, SuccessResponse, User, ViewUser};
use listers::task::Frequency;
use listers::text::{contains_text, fold_query, matches_folded, user_matches};
use listers::workflow::Success;

#[test]
fn offset_of_pages() {
    assert_eq!(PAGE_LIMIT, 10);
    assert_eq!(OFFSET(1), 0);
    assert_eq!(OFFSET(2), 10);
    assert_eq!(OFFSET(3277), 32760);
    assert_eq!(page_offset(1, 10), 0);
    assert_eq!(page_offset(4, 25), 75);
    assert_eq!(page_offset(65535, 65535), 65534 * 65535);
}

#[test]
fn page_bounds_clip_to_length() {
    assert_eq!(page_bounds(25, 1, 10), (0, 10));
    assert_eq!(page_bounds(25, 3, 10), (20, 25));
    assert_eq!(page_bounds(25, 4, 10), (25, 25));
    assert_eq!(page_bounds(0, 1, 10), (0, 0));
    assert_eq!(page_bounds(5, 2, 0), (0, 0));
}

#[test]
fn check_page_rejects_zero() {
    assert_eq!(check_page(0), Err(Failure::BadRequest(Refusal::InvalidPage)));
    assert_eq!(check_page(7), Ok(7));
}

#[test]
fn row_counts() {
    assert_eq!(expect_rows(1, 1), Ok(()));
    assert_eq!(expect_rows(2, 2), Ok(()));
    assert_eq!(expect_rows(1, 2), Err(StoreError::NotFound));
    assert_eq!(expect_rows(0, 1), Err(StoreError::NotFound));
    assert_eq!(expect_some_rows(0), Err(StoreError::NotFound));
    assert_eq!(expect_some_rows(3), Ok(()));
}

#[test]
fn api_errors() {
    let e = APIError::server();
    assert_eq!((e.status, e.msg.as_str()), (500, "Something went wrong"));
    let e = APIError::bad("nope");
    assert_eq!((e.status, e.msg.as_str()), (400, "nope"));
    let e = APIError::not_found();
    assert_eq!((e.status, e.msg.as_str()), (404, "Not found"));
    let e = APIError::auth();
    assert_eq!((e.status, e.msg.as_str()), (401, "Unauthorized"));
    let e = APIError::forbidden();
    assert_eq!((e.status, e.msg.as_str()), (403, "Forbidden"));
    let e = APIError::new(418, "teapot");
    assert_eq!((e.status, e.msg.as_str()), (418, "teapot"));
    let e = handle_api_error(true);
    assert_eq!((e.status, e.msg.as_str()), (408, "Request timed out"));
    let e = handle_api_error(false);
    assert_eq!((e.status, e.msg.as_str()), (500, "Something went wrong"));
}

#[test]
fn failures_become_api_errors() {
    let e = Failure::BadRequest(Refusal::AlreadyConnected).to_api_error();
    assert_eq!((e.status, e.msg.as_str()), (400, "You are already connected with this user"));
    let e = Failure::BadRequest(Refusal::RequestAlreadyReceived).to_api_error();
    assert_eq!(
        (e.status, e.msg.as_str()),
        (400, "This user has already sent you a connection request")
    );
    let e = Failure::Forbidden.to_api_error();
    assert_eq!((e.status, e.msg.as_str()), (403, "Forbidden"));
    let e = Failure::NotFound.to_api_error();
    assert_eq!((e.status, e.msg.as_str()), (404, "Not found"));
    let e = Failure::ServerError.to_api_error();
    assert_eq!((e.status, e.msg.as_str()), (500, "Something went wrong"));
    assert_eq!(Refusal::EmptyQuery.message(), "Query parameter 'q' is required");
}

#[test]
fn success_messages() {
    assert_eq!(SuccessResponse::from_success(Success::RequestSent).msg, "User connection request sent");
    assert_eq!(SuccessResponse::from_success(Success::Disconnected).msg, "User disconnected");
    assert_eq!(Success::RequestAccepted.message(), "User connection request accepted");
    assert_eq!(SuccessResponse::ok_msg("hi").msg, "hi");
}

#[test]
fn relationship_status_from_checks() {
    assert_eq!(RelationshipStatus::derive(true, true, true), RelationshipStatus::Connected);
    assert_eq!(RelationshipStatus::derive(false, true, false), RelationshipStatus::RequestSent);
    assert_eq!(RelationshipStatus::derive(false, false, true), RelationshipStatus::RequestReceived);
    assert_eq!(RelationshipStatus::derive(false, false, false), RelationshipStatus::Unrelated);
    let v = ViewUser::with_status(User::new(7, "x", None), RelationshipStatus::RequestReceived);
    assert!(v.received_connection && !v.sent_connection && !v.connected);
    assert_eq!(v.status(), RelationshipStatus::RequestReceived);
    let v = ViewUser::from(User::new(7, "x", Some("X")));
    assert_eq!(v.status(), RelationshipStatus::Unrelated);
    assert_eq!(v.name.as_deref(), Some("X"));
}

#[test]
fn search_params_page_and_validation() {
    let p = SearchParams { q: String::from("a"), p: None };
    assert_eq!(p.page(), 1);
    assert_eq!(p.validate(), Ok(1));
    let p = SearchParams { q: String::from("a"), p: Some(4) };
    assert_eq!(p.validate(), Ok(4));
    let p = SearchParams { q: String::from("a"), p: Some(0) };
    assert_eq!(p.validate(), Err(Failure::BadRequest(Refusal::InvalidPage)));
    let p = SearchParams { q: String::new(), p: Some(0) };
    assert_eq!(p.validate(), Err(Failure::BadRequest(Refusal::EmptyQuery)));
}

#[test]
fn substring_matching() {
    assert!(contains_text("hello", "ell"));
    assert!(contains_text("hello", ""));
    assert!(contains_text("hello", "hello"));
    assert!(!contains_text("hello", "hellos"));
    assert!(!contains_text("hello", "Ell"));
    assert!(contains_text("naïve café", "é"));
    assert!(matches_folded("alice", Some("wonder"), "der"));
    assert!(!matches_folded("alice", None, "der"));
}

#[test]
fn query_folding_lowers_case() {
    assert_eq!(fold_query("AbC"), "abc");
    let u = User::new(1, "ALICE", Some("Wonder LAND"));
    assert!(user_matches(&u, "lic"));
    assert!(user_matches(&u, "land"));
    assert!(!user_matches(&u, "LIC"));
}

#[test]
fn config_and_frequency() {
    assert_eq!(ConfigError::new("DATABASE_URL not set").message(), "DATABASE_URL not set");
    assert_eq!(Frequency::Daily.name(), "daily");
    assert_eq!(Frequency::Weekly.name(), "weekly");
    assert_eq!(Frequency::Monthly.name(), "monthly");
}

#[test]
fn lookup_failures() {
    assert_eq!(StoreError::NotFound.read_failure(), Failure::NotFound);
    assert_eq!(StoreError::Storage.read_failure(), Failure::ServerError);
    assert_eq!(StoreError::Conflict.read_failure(), Failure::ServerError);
}
