use roux::responses::{
    decode_comments_listing, decode_overview_listing, decode_submissions_listing, DecodeError,
    OverviewEntry,
};

fn submissions_payload() -> &'static [u8] {
    br#"{"kind":"Listing","data":{"after":"t3_abc","children":[
        {"kind":"t3","data":{"id":"abc","title":"First","author":"alice","subreddit":"rust",
         "created_utc":1600000000,"score":42,"is_self":true,"over_18":false,"selftext":"hello"}},
        {"kind":"t3","data":{"id":"def","title":"Second","author":"bob","subreddit":"verus",
         "created_utc":1600000100,"score":-1,"is_self":false,"over_18":true,
         "url":"https://example.com/x"}}
    ]}}"#
}

#[test]
fn submissions_count_and_order() {
    let listing = decode_submissions_listing(submissions_payload()).unwrap();
    assert_eq!(listing.children.len(), 2);
    assert_eq!(listing.after.as_deref(), Some("t3_abc"));
    let first = &listing.children[0];
    assert_eq!(first.id, "abc");
    assert_eq!(first.title, "First");
    assert_eq!(first.author, "alice");
    assert_eq!(first.subreddit, "rust");
    assert_eq!(first.created_utc, 1600000000);
    assert_eq!(first.score, 42);
    assert!(first.is_self);
    assert!(!first.over_18);
    assert_eq!(first.url, None);
    assert_eq!(first.selftext.as_deref(), Some("hello"));
    let second = &listing.children[1];
    assert_eq!(second.id, "def");
    assert_eq!(second.score, -1);
    assert_eq!(second.url.as_deref(), Some("https://example.com/x"));
    assert_eq!(second.selftext, None);
}

#[test]
fn overview_mixed_variants() {
    let payload = br#"{"kind":"Listing","data":{"after":null,"children":[
        {"kind":"t3","data":{"id":"p1","title":"Post","author":"alice","subreddit":"rust",
         "created_utc":1600000000,"score":10,"is_self":false,"over_18":false}},
        {"kind":"t1","data":{"id":"c1","author":"bob","parent_id":"t3_p1","body":"nice",
         "created_utc":1600000050,"score":3}},
        {"kind":"t3","data":{"id":"p2","title":"Another","author":"alice","subreddit":"verus",
         "created_utc":1600000200,"score":7,"is_self":true,"over_18":false,"selftext":"text"}}
    ]}}"#;
    let listing = decode_overview_listing(payload).unwrap();
    assert_eq!(listing.children.len(), 3);
    match &listing.children[0] {
        OverviewEntry::Post(s) => assert_eq!(s.id, "p1"),
        OverviewEntry::Comment(_) => panic!("first entry must be a post"),
    }
    match &listing.children[1] {
        OverviewEntry::Comment(c) => {
            assert_eq!(c.id, "c1");
            assert_eq!(c.parent_id, "t3_p1");
            assert_eq!(c.body, "nice");
        }
        OverviewEntry::Post(_) => panic!("second entry must be a comment"),
    }
    match &listing.children[2] {
        OverviewEntry::Post(s) => assert_eq!(s.id, "p2"),
        OverviewEntry::Comment(_) => panic!("third entry must be a post"),
    }
}

#[test]
fn overview_unknown_kind() {
    let payload = br#"{"kind":"Listing","data":{"children":[
        {"kind":"t3","data":{"id":"p1","title":"Post","author":"alice","subreddit":"rust",
         "created_utc":1600000000,"score":10,"is_self":false,"over_18":false}},
        {"kind":"t5","data":{"id":"x"}}
    ]}}"#;
    let err = decode_overview_listing(payload).unwrap_err();
    assert_eq!(err, DecodeError::UnknownEntryKind(String::from("t5")));
}

#[test]
fn submissions_missing_id() {
    let payload = br#"{"kind":"Listing","data":{"children":[
        {"kind":"t3","data":{"title":"No id","author":"alice","subreddit":"rust",
         "created_utc":1600000000,"score":1,"is_self":false,"over_18":false}}
    ]}}"#;
    let err = decode_submissions_listing(payload).unwrap_err();
    assert_eq!(err, DecodeError::MissingField(String::from("id")));
}

#[test]
fn submissions_null_id_is_missing() {
    let payload = br#"{"kind":"Listing","data":{"children":[
        {"kind":"t3","data":{"id":null,"title":"Null id","author":"alice","subreddit":"rust",
         "created_utc":1600000000,"score":1,"is_self":false,"over_18":false}}
    ]}}"#;
    let err = decode_submissions_listing(payload).unwrap_err();
    assert_eq!(err, DecodeError::MissingField(String::from("id")));
}

#[test]
fn submissions_score_type_mismatch() {
    let payload = br#"{"kind":"Listing","data":{"children":[
        {"kind":"t3","data":{"id":"abc","title":"Bad score","author":"alice","subreddit":"rust",
         "created_utc":1600000000,"score":"many","is_self":false,"over_18":false}}
    ]}}"#;
    let err = decode_submissions_listing(payload).unwrap_err();
    assert_eq!(err, DecodeError::TypeMismatch(String::from("score")));
}

#[test]
fn submissions_fractional_timestamp_mismatch() {
    let payload = br#"{"kind":"Listing","data":{"children":[
        {"kind":"t3","data":{"id":"abc","title":"Frac","author":"alice","subreddit":"rust",
         "created_utc":1600000000.5,"score":1,"is_self":false,"over_18":false}}
    ]}}"#;
    let err = decode_submissions_listing(payload).unwrap_err();
    assert_eq!(err, DecodeError::TypeMismatch(String::from("created_utc")));
}

#[test]
fn invalid_json_payload() {
    let err = decode_submissions_listing(b"not json at all").unwrap_err();
    assert_eq!(err, DecodeError::InvalidJson);
}

#[test]
fn root_not_an_object() {
    let err = decode_submissions_listing(b"[1,2,3]").unwrap_err();
    assert_eq!(err, DecodeError::TypeMismatch(String::from("listing")));
}

#[test]
fn missing_children_array() {
    let err = decode_submissions_listing(br#"{"kind":"Listing","data":{}}"#).unwrap_err();
    assert_eq!(err, DecodeError::MissingField(String::from("children")));
}

#[test]
fn empty_listing_decodes() {
    let payload = br#"{"kind":"Listing","data":{"after":null,"children":[]}}"#;
    let listing = decode_overview_listing(payload).unwrap();
    assert!(listing.children.is_empty());
    assert_eq!(listing.after, None);
}

#[test]
fn unknown_extra_fields_ignored() {
    let payload = br#"{"kind":"Listing","extra":1,"data":{"modhash":"","children":[
        {"kind":"t1","data":{"id":"c1","author":"bob","parent_id":"t3_p1","body":"hi",
         "created_utc":1600000050,"score":3,"edited":false,"gilded":0}}
    ],"before":null}}"#;
    let listing = decode_comments_listing(payload).unwrap();
    assert_eq!(listing.children.len(), 1);
    assert_eq!(listing.children[0].author, "bob");
}

#[test]
fn comments_listing_fields() {
    let payload = br#"{"kind":"Listing","data":{"after":"t1_next","children":[
        {"kind":"t1","data":{"id":"c9","author":"carol","parent_id":"t3_zz","body":"agreed",
         "created_utc":1700000000,"score":-4}}
    ]}}"#;
    let listing = decode_comments_listing(payload).unwrap();
    assert_eq!(listing.after.as_deref(), Some("t1_next"));
    let c = &listing.children[0];
    assert_eq!(c.id, "c9");
    assert_eq!(c.author, "carol");
    assert_eq!(c.parent_id, "t3_zz");
    assert_eq!(c.body, "agreed");
    assert_eq!(c.created_utc, 1700000000);
    assert_eq!(c.score, -4);
}

#[test]
fn decode_twice_structurally_equal() {
    let first = decode_submissions_listing(submissions_payload()).unwrap();
    let second = decode_submissions_listing(submissions_payload()).unwrap();
    assert_eq!(first, second);
}

#[test]
fn missing_data_object() {
    let err = decode_submissions_listing(br#"{"kind":"Listing"}"#).unwrap_err();
    assert_eq!(err, DecodeError::MissingField(String::from("data")));
}

#[test]
fn entry_not_an_object() {
    let payload = br#"{"kind":"Listing","data":{"children":[42]}}"#;
    let err = decode_overview_listing(payload).unwrap_err();
    assert_eq!(err, DecodeError::TypeMismatch(String::from("entry")));
}

#[test]
fn duplicate_keys_last_wins() {
    let payload = br#"{"kind":"Listing","data":{"children":[
        {"kind":"t1","data":{"id":"c1","author":"bob","parent_id":"t3_p1","body":"hi",
         "created_utc":1600000050,"score":1,"score":2}}
    ]}}"#;
    let listing = decode_comments_listing(payload).unwrap();
    assert_eq!(listing.children[0].score, 2);
}

#[test]
fn extreme_integer_scores() {
    let payload = br#"{"kind":"Listing","data":{"children":[
        {"kind":"t1","data":{"id":"c1","author":"bob","parent_id":"t3_p1","body":"hi",
         "created_utc":1600000050,"score":9223372036854775807}}
    ]}}"#;
    let listing = decode_comments_listing(payload).unwrap();
    assert_eq!(listing.children[0].score, i64::MAX);
    let too_big = br#"{"kind":"Listing","data":{"children":[
        {"kind":"t1","data":{"id":"c1","author":"bob","parent_id":"t3_p1","body":"hi",
         "created_utc":1600000050,"score":9223372036854775808}}
    ]}}"#;
    let err = decode_comments_listing(too_big).unwrap_err();
    assert_eq!(err, DecodeError::TypeMismatch(String::from("score")));
}

#[test]
fn absent_after_token_is_none() {
    let payload = br#"{"kind":"Listing","data":{"children":[]}}"#;
    let listing = decode_submissions_listing(payload).unwrap();
    assert_eq!(listing.after, None);
}
