use roux::responses::DecodeError;
use roux::user::{
    comments_from_outcome, overview_from_outcome, submitted_from_outcome, QueryError,
    TransportFailure, User,
};

#[test]
fn endpoint_urls() {
    let user = User::new("beneater");
    assert_eq!(user.user, "beneater");
    assert_eq!(
        user.overview_url(),
        "https://www.reddit.com/user/beneater/overview/.json"
    );
    assert_eq!(
        user.submitted_url(),
        "https://www.reddit.com/user/beneater/submitted/.json"
    );
    assert_eq!(
        user.comments_url(),
        "https://www.reddit.com/user/beneater/comments/.json"
    );
}

#[test]
fn new_with_agent_accepts_descriptive_agent() {
    let user = User::new_with_agent("beneater", "roux-tests/0.1").unwrap();
    assert_eq!(user.user, "beneater");
}

#[test]
fn new_with_agent_rejects_invalid_header_value() {
    let result = User::new_with_agent("beneater", "bad\nagent");
    assert!(result.is_err());
}

#[test]
fn overview_of_empty_account_is_empty_not_error() {
    let body = br#"{"kind":"Listing","data":{"after":null,"children":[]}}"#.to_vec();
    let listing = overview_from_outcome(Ok((200, body))).unwrap();
    assert!(listing.children.is_empty());
    assert_eq!(listing.after, None);
}

#[test]
fn submitted_unreachable_host_is_transport_error() {
    let cause = TransportFailure::Network(String::from("connection refused"));
    let err = submitted_from_outcome(Err(cause.clone())).unwrap_err();
    assert_eq!(err, QueryError::Transport(cause));
}

#[test]
fn submitted_and_comments_are_independent() {
    let user = User::new("beneater");
    let submitted_body = br#"{"kind":"Listing","data":{"children":[
        {"kind":"t3","data":{"id":"p1","title":"Post","author":"beneater","subreddit":"rust",
         "created_utc":1600000000,"score":5,"is_self":true,"over_18":false}}
    ]}}"#
        .to_vec();
    let comments_body = br#"{"kind":"Listing","data":{"children":[
        {"kind":"t1","data":{"id":"c1","author":"beneater","parent_id":"t3_p1","body":"hi",
         "created_utc":1600000100,"score":2}}
    ]}}"#
        .to_vec();
    let _ = user.submitted_url();
    let _ = user.comments_url();
    let submitted = submitted_from_outcome(Ok((200, submitted_body))).unwrap();
    let comments = comments_from_outcome(Ok((200, comments_body))).unwrap();
    assert_eq!(submitted.children.len(), 1);
    assert_eq!(submitted.children[0].id, "p1");
    assert_eq!(comments.children.len(), 1);
    assert_eq!(comments.children[0].id, "c1");
}

#[test]
fn failure_status_with_undecodable_body_is_transport() {
    let err = overview_from_outcome(Ok((429, b"Too Many Requests".to_vec()))).unwrap_err();
    assert_eq!(err, QueryError::Transport(TransportFailure::Status(429)));
}

#[test]
fn failure_status_with_listing_body_still_decodes() {
    let body = br#"{"kind":"Listing","data":{"after":null,"children":[]}}"#.to_vec();
    let listing = overview_from_outcome(Ok((403, body))).unwrap();
    assert!(listing.children.is_empty());
}

#[test]
fn success_status_with_undecodable_body_is_decode_error() {
    let err = overview_from_outcome(Ok((200, b"surprise!".to_vec()))).unwrap_err();
    assert_eq!(err, QueryError::Decode(DecodeError::InvalidJson));
}
