//! The response data model: typed values for the platform's listing payloads
//! and the decoders that produce them.
//!
//! Every endpoint answers with one listing: an object whose `data` member
//! holds the ordered `children` array and an optional `after` pagination
//! token. A child entry wraps its payload in a `data` object of its own; in
//! the overview listing a `kind` discriminator on the entry tells a post
//! (`"t3"`) from a comment (`"t1"`). Decoding is lossless and order
//! preserving: every input entry maps to exactly one output entry or to an
//! explicit error, never to a silently dropped or defaulted value.

use vstd::prelude::*;

use crate::json::{spec_get, Json};

verus! {

/// A posted item, as the platform reports it.
///
/// The optional fields are ones the platform omits (or sets to `null`)
/// depending on the kind of post; they decode to `None` rather than to a
/// sentinel value.
#[derive(Debug, Clone, PartialEq)]
pub struct Submission {
    pub id: String,
    pub title: String,
    pub author: String,
    pub subreddit: String,
    pub created_utc: i64,
    pub score: i64,
    pub is_self: bool,
    pub over_18: bool,
    pub url: Option<String>,
    pub selftext: Option<String>,
}

/// The mathematical value of a [`Submission`].
pub struct SubmissionV {
    pub id: Seq<char>,
    pub title: Seq<char>,
    pub author: Seq<char>,
    pub subreddit: Seq<char>,
    pub created_utc: i64,
    pub score: i64,
    pub is_self: bool,
    pub over_18: bool,
    pub url: Option<Seq<char>>,
    pub selftext: Option<Seq<char>>,
}

impl View for Submission {
    type V = SubmissionV;

    open spec fn view(&self) -> SubmissionV {
        SubmissionV {
            id: self.id@,
            title: self.title@,
            author: self.author@,
            subreddit: self.subreddit@,
            created_utc: self.created_utc,
            score: self.score,
            is_self: self.is_self,
            over_18: self.over_18,
            url: self.url.deep_view(),
            selftext: self.selftext.deep_view(),
        }
    }
}

impl DeepView for Submission {
    type V = SubmissionV;

    open spec fn deep_view(&self) -> SubmissionV {
        self.view()
    }
}

/// A single comment, as the platform reports it.
#[derive(Debug, Clone, PartialEq)]
pub struct Comment {
    pub id: String,
    pub author: String,
    pub parent_id: String,
    pub body: String,
    pub created_utc: i64,
    pub score: i64,
}

/// The mathematical value of a [`Comment`].
pub struct CommentV {
    pub id: Seq<char>,
    pub author: Seq<char>,
    pub parent_id: Seq<char>,
    pub body: Seq<char>,
    pub created_utc: i64,
    pub score: i64,
}

impl View for Comment {
    type V = CommentV;

    open spec fn view(&self) -> CommentV {
        CommentV {
            id: self.id@,
            author: self.author@,
            parent_id: self.parent_id@,
            body: self.body@,
            created_utc: self.created_utc,
            score: self.score,
        }
    }
}

impl DeepView for Comment {
    type V = CommentV;

    open spec fn deep_view(&self) -> CommentV {
        self.view()
    }
}

/// One entry of the mixed overview listing: a closed tagged union over posts
/// and comments, resolved by the entry's `kind` discriminator at decode time.
#[derive(Debug, Clone, PartialEq)]
pub enum OverviewEntry {
    Post(Submission),
    Comment(Comment),
}

/// The mathematical value of an [`OverviewEntry`].
pub enum OverviewEntryV {
    Post(SubmissionV),
    Comment(CommentV),
}

impl View for OverviewEntry {
    type V = OverviewEntryV;

    open spec fn view(&self) -> OverviewEntryV {
        match self {
            OverviewEntry::Post(s) => OverviewEntryV::Post(s@),
            OverviewEntry::Comment(c) => OverviewEntryV::Comment(c@),
        }
    }
}

impl DeepView for OverviewEntry {
    type V = OverviewEntryV;

    open spec fn deep_view(&self) -> OverviewEntryV {
        self.view()
    }
}

/// An ordered sequence of decoded entries plus the opaque pagination token,
/// which is unused downstream but carried through when present.
#[derive(Debug, Clone, PartialEq)]
pub struct Listing<T> {
    pub children: Vec<T>,
    pub after: Option<String>,
}

/// The mathematical value of a [`Listing`].
pub struct ListingV<T> {
    pub children: Seq<T>,
    pub after: Option<Seq<char>>,
}

impl<T: DeepView> View for Listing<T> {
    type V = ListingV<T::V>;

    open spec fn view(&self) -> ListingV<T::V> {
        ListingV { children: self.children.deep_view(), after: self.after.deep_view() }
    }
}

impl<T: DeepView> DeepView for Listing<T> {
    type V = ListingV<T::V>;

    open spec fn deep_view(&self) -> ListingV<T::V> {
        self.view()
    }
}

/// Why a payload failed to decode.
#[derive(Debug, Clone, PartialEq)]
pub enum DecodeError {
    /// The payload is not well-formed JSON.
    InvalidJson,
    /// A required field (named here) is absent or `null`.
    MissingField(String),
    /// A field (named here) holds a value of an unexpected type.
    TypeMismatch(String),
    /// An overview entry carries this unrecognized discriminator.
    UnknownEntryKind(String),
}

/// The mathematical value of a [`DecodeError`].
pub enum DecodeErrorV {
    InvalidJson,
    MissingField(Seq<char>),
    TypeMismatch(Seq<char>),
    UnknownEntryKind(Seq<char>),
}

impl View for DecodeError {
    type V = DecodeErrorV;

    open spec fn view(&self) -> DecodeErrorV {
        match self {
            DecodeError::InvalidJson => DecodeErrorV::InvalidJson,
            DecodeError::MissingField(n) => DecodeErrorV::MissingField(n@),
            DecodeError::TypeMismatch(n) => DecodeErrorV::TypeMismatch(n@),
            DecodeError::UnknownEntryKind(k) => DecodeErrorV::UnknownEntryKind(k@),
        }
    }
}

impl DeepView for DecodeError {
    type V = DecodeErrorV;

    open spec fn deep_view(&self) -> DecodeErrorV {
        self.view()
    }
}

/// The mathematical value of a decode result.
pub open spec fn decoded_view<T: DeepView>(r: Result<T, DecodeError>) -> Result<
    T::V,
    DecodeErrorV,
> {
    match r {
        Ok(t) => Ok(t.deep_view()),
        Err(e) => Err(e@),
    }
}

/// A required string field: absent or `null` is a missing field, any
/// non-string value a type mismatch.
pub open spec fn spec_req_str(d: Seq<(String, Json)>, name: Seq<char>) -> Result<
    Seq<char>,
    DecodeErrorV,
> {
    match spec_get(d, name) {
        None => Err(DecodeErrorV::MissingField(name)),
        Some(Json::Null) => Err(DecodeErrorV::MissingField(name)),
        Some(Json::Str(s)) => Ok(s@),
        Some(_) => Err(DecodeErrorV::TypeMismatch(name)),
    }
}

/// A required integer field; a number with no exact `i64` value counts as a
/// type mismatch.
pub open spec fn spec_req_int(d: Seq<(String, Json)>, name: Seq<char>) -> Result<
    i64,
    DecodeErrorV,
> {
    match spec_get(d, name) {
        None => Err(DecodeErrorV::MissingField(name)),
        Some(Json::Null) => Err(DecodeErrorV::MissingField(name)),
        Some(Json::Int(i)) => Ok(i),
        Some(_) => Err(DecodeErrorV::TypeMismatch(name)),
    }
}

/// A required boolean field.
pub open spec fn spec_req_bool(d: Seq<(String, Json)>, name: Seq<char>) -> Result<
    bool,
    DecodeErrorV,
> {
    match spec_get(d, name) {
        None => Err(DecodeErrorV::MissingField(name)),
        Some(Json::Null) => Err(DecodeErrorV::MissingField(name)),
        Some(Json::Bool(b)) => Ok(b),
        Some(_) => Err(DecodeErrorV::TypeMismatch(name)),
    }
}

/// An optional string field: absent or `null` decodes to `None`, a string to
/// `Some`, anything else is a type mismatch.
pub open spec fn spec_opt_str(d: Seq<(String, Json)>, name: Seq<char>) -> Result<
    Option<Seq<char>>,
    DecodeErrorV,
> {
    match spec_get(d, name) {
        None => Ok(None),
        Some(Json::Null) => Ok(None),
        Some(Json::Str(s)) => Ok(Some(s@)),
        Some(_) => Err(DecodeErrorV::TypeMismatch(name)),
    }
}

/// Reads the required string field `name` out of the object members `d`.
pub fn req_str(d: &Vec<(String, Json)>, name: &str) -> (r: Result<String, DecodeError>)
    ensures
        decoded_view(r) == spec_req_str(d@, name@),
{
    let key = String::from_str(name);
    match crate::json::get_field(d, &key) {
        None => Err(DecodeError::MissingField(key)),
        Some(j) => match j {
            Json::Null => Err(DecodeError::MissingField(key)),
            Json::Str(s) => Ok(s.clone()),
            _ => Err(DecodeError::TypeMismatch(key)),
        },
    }
}

/// Reads the required integer field `name` out of the object members `d`.
pub fn req_int(d: &Vec<(String, Json)>, name: &str) -> (r: Result<i64, DecodeError>)
    ensures
        decoded_view(r) == spec_req_int(d@, name@),
{
    let key = String::from_str(name);
    match crate::json::get_field(d, &key) {
        None => Err(DecodeError::MissingField(key)),
        Some(j) => match j {
            Json::Null => Err(DecodeError::MissingField(key)),
            Json::Int(i) => Ok(*i),
            _ => Err(DecodeError::TypeMismatch(key)),
        },
    }
}

/// Reads the required boolean field `name` out of the object members `d`.
pub fn req_bool(d: &Vec<(String, Json)>, name: &str) -> (r: Result<bool, DecodeError>)
    ensures
        decoded_view(r) == spec_req_bool(d@, name@),
{
    let key = String::from_str(name);
    match crate::json::get_field(d, &key) {
        None => Err(DecodeError::MissingField(key)),
        Some(j) => match j {
            Json::Null => Err(DecodeError::MissingField(key)),
            Json::Bool(b) => Ok(*b),
            _ => Err(DecodeError::TypeMismatch(key)),
        },
    }
}

/// Reads the optional string field `name` out of the object members `d`.
pub fn opt_str(d: &Vec<(String, Json)>, name: &str) -> (r: Result<Option<String>, DecodeError>)
    ensures
        decoded_view(r) == spec_opt_str(d@, name@),
{
    let key = String::from_str(name);
    match crate::json::get_field(d, &key) {
        None => Ok(None),
        Some(j) => match j {
            Json::Null => Ok(None),
            Json::Str(s) => Ok(Some(s.clone())),
            _ => Err(DecodeError::TypeMismatch(key)),
        },
    }
}

/// The members of an entry's `data` object: an entry must be an object and
/// must carry a `data` object holding the entry's payload.
pub open spec fn spec_entry_data(e: Json) -> Result<Seq<(String, Json)>, DecodeErrorV> {
    match e {
        Json::Obj(top) => match spec_get(top@, "data"@) {
            None => Err(DecodeErrorV::MissingField("data"@)),
            Some(Json::Null) => Err(DecodeErrorV::MissingField("data"@)),
            Some(Json::Obj(d)) => Ok(d@),
            Some(_) => Err(DecodeErrorV::TypeMismatch("data"@)),
        },
        _ => Err(DecodeErrorV::TypeMismatch("entry"@)),
    }
}

/// Borrows the members of an entry's `data` object.
pub fn entry_data<'a>(e: &'a Json) -> (r: Result<&'a Vec<(String, Json)>, DecodeError>)
    ensures
        match r {
            Ok(d) => spec_entry_data(*e) == Ok::<Seq<(String, Json)>, DecodeErrorV>(d@),
            Err(err) => spec_entry_data(*e) == Err::<Seq<(String, Json)>, DecodeErrorV>(err@),
        },
{
    match e {
        Json::Obj(top) => match crate::json::get_field(top, &String::from_str("data")) {
            None => Err(DecodeError::MissingField(String::from_str("data"))),
            Some(inner) => match inner {
                Json::Null => Err(DecodeError::MissingField(String::from_str("data"))),
                Json::Obj(d) => Ok(d),
                _ => Err(DecodeError::TypeMismatch(String::from_str("data"))),
            },
        },
        _ => Err(DecodeError::TypeMismatch(String::from_str("entry"))),
    }
}

/// The submission held by an entry's `data` members.
pub open spec fn spec_decode_submission(d: Seq<(String, Json)>) -> Result<
    SubmissionV,
    DecodeErrorV,
> {
    match spec_req_str(d, "id"@) {
        Err(e) => Err(e),
        Ok(id) => match spec_req_str(d, "title"@) {
            Err(e) => Err(e),
            Ok(title) => match spec_req_str(d, "author"@) {
                Err(e) => Err(e),
                Ok(author) => match spec_req_str(d, "subreddit"@) {
                    Err(e) => Err(e),
                    Ok(subreddit) => match spec_req_int(d, "created_utc"@) {
                        Err(e) => Err(e),
                        Ok(created_utc) => match spec_req_int(d, "score"@) {
                            Err(e) => Err(e),
                            Ok(score) => match spec_req_bool(d, "is_self"@) {
                                Err(e) => Err(e),
                                Ok(is_self) => match spec_req_bool(d, "over_18"@) {
                                    Err(e) => Err(e),
                                    Ok(over_18) => match spec_opt_str(d, "url"@) {
                                        Err(e) => Err(e),
                                        Ok(url) => match spec_opt_str(d, "selftext"@) {
                                            Err(e) => Err(e),
                                            Ok(selftext) => Ok(
                                                SubmissionV {
                                                    id,
                                                    title,
                                                    author,
                                                    subreddit,
                                                    created_utc,
                                                    score,
                                                    is_self,
                                                    over_18,
                                                    url,
                                                    selftext,
                                                },
                                            ),
                                        },
                                    },
                                },
                            },
                        },
                    },
                },
            },
        },
    }
}

/// Decodes a submission out of an entry's `data` members; the first field
/// that is absent or ill-typed decides the error.
pub fn decode_submission(d: &Vec<(String, Json)>) -> (r: Result<Submission, DecodeError>)
    ensures
        decoded_view(r) == spec_decode_submission(d@),
{
    let id = match req_str(d, "id") {
        Ok(v) => v,
        Err(e) => return Err(e),
    };
    let title = match req_str(d, "title") {
        Ok(v) => v,
        Err(e) => return Err(e),
    };
    let author = match req_str(d, "author") {
        Ok(v) => v,
        Err(e) => return Err(e),
    };
    let subreddit = match req_str(d, "subreddit") {
        Ok(v) => v,
        Err(e) => return Err(e),
    };
    let created_utc = match req_int(d, "created_utc") {
        Ok(v) => v,
        Err(e) => return Err(e),
    };
    let score = match req_int(d, "score") {
        Ok(v) => v,
        Err(e) => return Err(e),
    };
    let is_self = match req_bool(d, "is_self") {
        Ok(v) => v,
        Err(e) => return Err(e),
    };
    let over_18 = match req_bool(d, "over_18") {
        Ok(v) => v,
        Err(e) => return Err(e),
    };
    let url = match opt_str(d, "url") {
        Ok(v) => v,
        Err(e) => return Err(e),
    };
    let selftext = match opt_str(d, "selftext") {
        Ok(v) => v,
        Err(e) => return Err(e),
    };
    Ok(Submission { id, title, author, subreddit, created_utc, score, is_self, over_18, url, selftext })
}

/// The comment held by an entry's `data` members.
pub open spec fn spec_decode_comment(d: Seq<(String, Json)>) -> Result<CommentV, DecodeErrorV> {
    match spec_req_str(d, "id"@) {
        Err(e) => Err(e),
        Ok(id) => match spec_req_str(d, "author"@) {
            Err(e) => Err(e),
            Ok(author) => match spec_req_str(d, "parent_id"@) {
                Err(e) => Err(e),
                Ok(parent_id) => match spec_req_str(d, "body"@) {
                    Err(e) => Err(e),
                    Ok(body) => match spec_req_int(d, "created_utc"@) {
                        Err(e) => Err(e),
                        Ok(created_utc) => match spec_req_int(d, "score"@) {
                            Err(e) => Err(e),
                            Ok(score) => Ok(
                                CommentV { id, author, parent_id, body, created_utc, score },
                            ),
                        },
                    },
                },
            },
        },
    }
}

/// Decodes a comment out of an entry's `data` members; the first field that
/// is absent or ill-typed decides the error.
pub fn decode_comment(d: &Vec<(String, Json)>) -> (r: Result<Comment, DecodeError>)
    ensures
        decoded_view(r) == spec_decode_comment(d@),
{
    let id = match req_str(d, "id") {
        Ok(v) => v,
        Err(e) => return Err(e),
    };
    let author = match req_str(d, "author") {
        Ok(v) => v,
        Err(e) => return Err(e),
    };
    let parent_id = match req_str(d, "parent_id") {
        Ok(v) => v,
        Err(e) => return Err(e),
    };
    let body = match req_str(d, "body") {
        Ok(v) => v,
        Err(e) => return Err(e),
    };
    let created_utc = match req_int(d, "created_utc") {
        Ok(v) => v,
        Err(e) => return Err(e),
    };
    let score = match req_int(d, "score") {
        Ok(v) => v,
        Err(e) => return Err(e),
    };
    Ok(Comment { id, author, parent_id, body, created_utc, score })
}

/// The children array and pagination token of a listing payload: the payload
/// must be an object whose `data` object holds a `children` array; `after`
/// is an optional string beside it.
pub open spec fn spec_listing_parts(j: Json) -> Result<
    (Seq<Json>, Option<Seq<char>>),
    DecodeErrorV,
> {
    match j {
        Json::Obj(top) => match spec_get(top@, "data"@) {
            None => Err(DecodeErrorV::MissingField("data"@)),
            Some(Json::Null) => Err(DecodeErrorV::MissingField("data"@)),
            Some(Json::Obj(d)) => match spec_get(d@, "children"@) {
                None => Err(DecodeErrorV::MissingField("children"@)),
                Some(Json::Null) => Err(DecodeErrorV::MissingField("children"@)),
                Some(Json::Arr(cs)) => match spec_opt_str(d@, "after"@) {
                    Err(e) => Err(e),
                    Ok(after) => Ok((cs@, after)),
                },
                Some(_) => Err(DecodeErrorV::TypeMismatch("children"@)),
            },
            Some(_) => Err(DecodeErrorV::TypeMismatch("data"@)),
        },
        _ => Err(DecodeErrorV::TypeMismatch("listing"@)),
    }
}

/// Takes a listing payload apart into its children array and its `after`
/// token.
pub fn listing_parts<'a>(j: &'a Json) -> (r: Result<
    (&'a Vec<Json>, Option<String>),
    DecodeError,
>)
    ensures
        match r {
            Ok(p) => spec_listing_parts(*j) == Ok::<(Seq<Json>, Option<Seq<char>>), DecodeErrorV>(
                (p.0@, p.1.deep_view()),
            ),
            Err(e) => spec_listing_parts(*j) == Err::<
                (Seq<Json>, Option<Seq<char>>),
                DecodeErrorV,
            >(e@),
        },
{
    let top = match j {
        Json::Obj(top) => top,
        _ => return Err(DecodeError::TypeMismatch(String::from_str("listing"))),
    };
    let data = match crate::json::get_field(top, &String::from_str("data")) {
        None => return Err(DecodeError::MissingField(String::from_str("data"))),
        Some(inner) => match inner {
            Json::Null => return Err(DecodeError::MissingField(String::from_str("data"))),
            Json::Obj(d) => d,
            _ => return Err(DecodeError::TypeMismatch(String::from_str("data"))),
        },
    };
    let children = match crate::json::get_field(data, &String::from_str("children")) {
        None => return Err(DecodeError::MissingField(String::from_str("children"))),
        Some(inner) => match inner {
            Json::Null => return Err(DecodeError::MissingField(String::from_str("children"))),
            Json::Arr(cs) => cs,
            _ => return Err(DecodeError::TypeMismatch(String::from_str("children"))),
        },
    };
    let after = match opt_str(data, "after") {
        Ok(a) => a,
        Err(e) => return Err(e),
    };
    Ok((children, after))
}

/// A submissions-listing entry: its `data` members decoded as a submission.
pub open spec fn spec_decode_submission_entry(e: Json) -> Result<SubmissionV, DecodeErrorV> {
    match spec_entry_data(e) {
        Err(err) => Err(err),
        Ok(d) => spec_decode_submission(d),
    }
}

/// Decodes one entry of a submissions listing.
pub fn decode_submission_entry(e: &Json) -> (r: Result<Submission, DecodeError>)
    ensures
        decoded_view(r) == spec_decode_submission_entry(*e),
{
    match entry_data(e) {
        Err(err) => Err(err),
        Ok(d) => decode_submission(d),
    }
}

/// A comments-listing entry: its `data` members decoded as a comment.
pub open spec fn spec_decode_comment_entry(e: Json) -> Result<CommentV, DecodeErrorV> {
    match spec_entry_data(e) {
        Err(err) => Err(err),
        Ok(d) => spec_decode_comment(d),
    }
}

/// Decodes one entry of a comments listing.
pub fn decode_comment_entry(e: &Json) -> (r: Result<Comment, DecodeError>)
    ensures
        decoded_view(r) == spec_decode_comment_entry(*e),
{
    match entry_data(e) {
        Err(err) => Err(err),
        Ok(d) => decode_comment(d),
    }
}

/// The discriminator of an overview entry: its required `kind` string.
pub open spec fn spec_entry_kind(e: Json) -> Result<Seq<char>, DecodeErrorV> {
    match e {
        Json::Obj(top) => spec_req_str(top@, "kind"@),
        _ => Err(DecodeErrorV::TypeMismatch("entry"@)),
    }
}

/// An overview entry: the `kind` discriminator picks the variant — `"t3"`
/// decodes the entry's data as a post, `"t1"` as a comment, and any other
/// value is an unknown entry kind.
pub open spec fn spec_decode_overview_entry(e: Json) -> Result<OverviewEntryV, DecodeErrorV> {
    match spec_entry_kind(e) {
        Err(err) => Err(err),
        Ok(k) => if k == "t3"@ {
            match spec_entry_data(e) {
                Err(err) => Err(err),
                Ok(d) => match spec_decode_submission(d) {
                    Err(err) => Err(err),
                    Ok(s) => Ok(OverviewEntryV::Post(s)),
                },
            }
        } else if k == "t1"@ {
            match spec_entry_data(e) {
                Err(err) => Err(err),
                Ok(d) => match spec_decode_comment(d) {
                    Err(err) => Err(err),
                    Ok(c) => Ok(OverviewEntryV::Comment(c)),
                },
            }
        } else {
            Err(DecodeErrorV::UnknownEntryKind(k))
        },
    }
}

/// Decodes one entry of the mixed overview listing by its discriminator.
pub fn decode_overview_entry(e: &Json) -> (r: Result<OverviewEntry, DecodeError>)
    ensures
        decoded_view(r) == spec_decode_overview_entry(*e),
{
    let top = match e {
        Json::Obj(top) => top,
        _ => return Err(DecodeError::TypeMismatch(String::from_str("entry"))),
    };
    let kind = match req_str(top, "kind") {
        Ok(k) => k,
        Err(err) => return Err(err),
    };
    if kind == String::from_str("t3") {
        let d = match entry_data(e) {
            Ok(d) => d,
            Err(err) => return Err(err),
        };
        match decode_submission(d) {
            Ok(s) => Ok(OverviewEntry::Post(s)),
            Err(err) => Err(err),
        }
    } else if kind == String::from_str("t1") {
        let d = match entry_data(e) {
            Ok(d) => d,
            Err(err) => return Err(err),
        };
        match decode_comment(d) {
            Ok(c) => Ok(OverviewEntry::Comment(c)),
            Err(err) => Err(err),
        }
    } else {
        Err(DecodeError::UnknownEntryKind(kind))
    }
}

/// Entry-by-entry decoding of a children array, in order: the result keeps
/// one decoded value per input entry, and the first entry that fails to
/// decode decides the error.
pub open spec fn spec_decode_entries<V>(
    s: Seq<Json>,
    f: spec_fn(Json) -> Result<V, DecodeErrorV>,
) -> Result<Seq<V>, DecodeErrorV>
    decreases s.len(),
{
    if s.len() == 0 {
        Ok(Seq::empty())
    } else {
        match spec_decode_entries(s.drop_last(), f) {
            Err(e) => Err(e),
            Ok(pre) => match f(s.last()) {
                Err(e) => Err(e),
                Ok(v) => Ok(pre.push(v)),
            },
        }
    }
}

/// How a submissions-listing entry decodes.
pub open spec fn submission_entry_fn() -> spec_fn(Json) -> Result<SubmissionV, DecodeErrorV> {
    |e: Json| spec_decode_submission_entry(e)
}

/// How a comments-listing entry decodes.
pub open spec fn comment_entry_fn() -> spec_fn(Json) -> Result<CommentV, DecodeErrorV> {
    |e: Json| spec_decode_comment_entry(e)
}

/// How an overview-listing entry decodes.
pub open spec fn overview_entry_fn() -> spec_fn(Json) -> Result<OverviewEntryV, DecodeErrorV> {
    |e: Json| spec_decode_overview_entry(e)
}

/// When every entry of a prefix decodes and the next entry fails, the whole
/// array's decoding fails with that entry's error.
pub proof fn lemma_entries_err<V>(
    s: Seq<Json>,
    f: spec_fn(Json) -> Result<V, DecodeErrorV>,
    i: int,
    e: DecodeErrorV,
)
    requires
        0 <= i < s.len(),
        spec_decode_entries(s.take(i), f) is Ok,
        f(s[i]) == Err::<V, DecodeErrorV>(e),
    ensures
        spec_decode_entries(s, f) == Err::<Seq<V>, DecodeErrorV>(e),
    decreases s.len(),
{
    if s.len() == i + 1 {
        assert(s.drop_last() =~= s.take(i));
        assert(s.last() == s[i]);
    } else {
        assert(s.drop_last().take(i) =~= s.take(i));
        assert(s.drop_last()[i] == s[i]);
        lemma_entries_err(s.drop_last(), f, i, e);
    }
}

/// When a children array decodes, it decodes entry by entry: the output has
/// one value per input entry, each the decoding of the entry at the same
/// position.
pub proof fn lemma_entries_ok<V>(
    s: Seq<Json>,
    f: spec_fn(Json) -> Result<V, DecodeErrorV>,
    vs: Seq<V>,
)
    requires
        spec_decode_entries(s, f) == Ok::<Seq<V>, DecodeErrorV>(vs),
    ensures
        vs.len() == s.len(),
        forall|i: int| 0 <= i < s.len() ==> f(s[i]) == Ok::<V, DecodeErrorV>(vs[i]),
    decreases s.len(),
{
    if s.len() == 0 {
    } else {
        match spec_decode_entries(s.drop_last(), f) {
            Ok(pre) => {
                lemma_entries_ok(s.drop_last(), f, pre);
                assert forall|i: int| 0 <= i < s.len() implies f(s[i]) == Ok::<V, DecodeErrorV>(
                    vs[i],
                ) by {
                    if i < s.len() - 1 {
                        assert(s.drop_last()[i] == s[i]);
                    } else {
                        assert(s.last() == s[i]);
                    }
                }
            },
            Err(_) => {
                assert(false);
            },
        }
    }
}

/// When every entry of a children array decodes, the whole array decodes.
pub proof fn lemma_entries_all_ok<V>(s: Seq<Json>, f: spec_fn(Json) -> Result<V, DecodeErrorV>)
    requires
        forall|i: int| 0 <= i < s.len() ==> f(s[i]) is Ok,
    ensures
        spec_decode_entries(s, f) is Ok,
    decreases s.len(),
{
    if s.len() > 0 {
        assert forall|i: int| 0 <= i < s.drop_last().len() implies f(s.drop_last()[i]) is Ok by {
            assert(s.drop_last()[i] == s[i]);
        }
        lemma_entries_all_ok(s.drop_last(), f);
    }
}

/// A whole submissions-listing payload.
pub open spec fn spec_decode_submissions_listing(j: Json) -> Result<
    ListingV<SubmissionV>,
    DecodeErrorV,
> {
    match spec_listing_parts(j) {
        Err(e) => Err(e),
        Ok(p) => match spec_decode_entries(p.0, submission_entry_fn()) {
            Err(e) => Err(e),
            Ok(vs) => Ok(ListingV { children: vs, after: p.1 }),
        },
    }
}

/// Decodes a parsed submissions-listing payload.
pub fn decode_submissions_listing_json(j: &Json) -> (r: Result<Listing<Submission>, DecodeError>)
    ensures
        decoded_view(r) == spec_decode_submissions_listing(*j),
{
    let parts = match listing_parts(j) {
        Ok(p) => p,
        Err(e) => return Err(e),
    };
    let children = parts.0;
    let mut out: Vec<Submission> = Vec::new();
    let mut i: usize = 0;
    proof {
        assert(children@.take(0) =~= Seq::<Json>::empty());
        assert(out.deep_view() =~= Seq::<SubmissionV>::empty());
    }
    while i < children.len()
        invariant
            i <= children.len(),
            spec_listing_parts(*j) == Ok::<(Seq<Json>, Option<Seq<char>>), DecodeErrorV>(
                (children@, parts.1.deep_view()),
            ),
            spec_decode_entries(children@.take(i as int), submission_entry_fn()) == Ok::<
                Seq<SubmissionV>,
                DecodeErrorV,
            >(out.deep_view()),
        decreases children.len() - i,
    {
        let ghost pre = out.deep_view();
        match decode_submission_entry(&children[i]) {
            Err(e) => {
                proof {
                    assert(submission_entry_fn()(children@[i as int])
                        == spec_decode_submission_entry(children@[i as int]));
                    lemma_entries_err(children@, submission_entry_fn(), i as int, e@);
                }
                return Err(e);
            },
            Ok(v) => {
                let ghost vv = v.deep_view();
                out.push(v);
                proof {
                    assert(submission_entry_fn()(children@[i as int])
                        == spec_decode_submission_entry(children@[i as int]));
                    assert(out.deep_view() =~= pre.push(vv));
                    assert(children@.take(i as int + 1).drop_last() =~= children@.take(i as int));
                    assert(children@.take(i as int + 1).last() == children@[i as int]);
                }
            },
        }
        i += 1;
    }
    proof {
        assert(children@.take(children@.len() as int) =~= children@);
    }
    Ok(Listing { children: out, after: parts.1 })
}

/// A whole comments-listing payload.
pub open spec fn spec_decode_comments_listing(j: Json) -> Result<
    ListingV<CommentV>,
    DecodeErrorV,
> {
    match spec_listing_parts(j) {
        Err(e) => Err(e),
        Ok(p) => match spec_decode_entries(p.0, comment_entry_fn()) {
            Err(e) => Err(e),
            Ok(vs) => Ok(ListingV { children: vs, after: p.1 }),
        },
    }
}

/// Decodes a parsed comments-listing payload.
pub fn decode_comments_listing_json(j: &Json) -> (r: Result<Listing<Comment>, DecodeError>)
    ensures
        decoded_view(r) == spec_decode_comments_listing(*j),
{
    let parts = match listing_parts(j) {
        Ok(p) => p,
        Err(e) => return Err(e),
    };
    let children = parts.0;
    let mut out: Vec<Comment> = Vec::new();
    let mut i: usize = 0;
    proof {
        assert(children@.take(0) =~= Seq::<Json>::empty());
        assert(out.deep_view() =~= Seq::<CommentV>::empty());
    }
    while i < children.len()
        invariant
            i <= children.len(),
            spec_listing_parts(*j) == Ok::<(Seq<Json>, Option<Seq<char>>), DecodeErrorV>(
                (children@, parts.1.deep_view()),
            ),
            spec_decode_entries(children@.take(i as int), comment_entry_fn()) == Ok::<
                Seq<CommentV>,
                DecodeErrorV,
            >(out.deep_view()),
        decreases children.len() - i,
    {
        let ghost pre = out.deep_view();
        match decode_comment_entry(&children[i]) {
            Err(e) => {
                proof {
                    assert(comment_entry_fn()(children@[i as int]) == spec_decode_comment_entry(
                        children@[i as int],
                    ));
                    lemma_entries_err(children@, comment_entry_fn(), i as int, e@);
                }
                return Err(e);
            },
            Ok(v) => {
                let ghost vv = v.deep_view();
                out.push(v);
                proof {
                    assert(comment_entry_fn()(children@[i as int]) == spec_decode_comment_entry(
                        children@[i as int],
                    ));
                    assert(out.deep_view() =~= pre.push(vv));
                    assert(children@.take(i as int + 1).drop_last() =~= children@.take(i as int));
                    assert(children@.take(i as int + 1).last() == children@[i as int]);
                }
            },
        }
        i += 1;
    }
    proof {
        assert(children@.take(children@.len() as int) =~= children@);
    }
    Ok(Listing { children: out, after: parts.1 })
}

/// A whole overview-listing payload: the mixed listing of posts and
/// comments.
pub open spec fn spec_decode_overview_listing(j: Json) -> Result<
    ListingV<OverviewEntryV>,
    DecodeErrorV,
> {
    match spec_listing_parts(j) {
        Err(e) => Err(e),
        Ok(p) => match spec_decode_entries(p.0, overview_entry_fn()) {
            Err(e) => Err(e),
            Ok(vs) => Ok(ListingV { children: vs, after: p.1 }),
        },
    }
}

/// Decodes a parsed overview-listing payload.
pub fn decode_overview_listing_json(j: &Json) -> (r: Result<Listing<OverviewEntry>, DecodeError>)
    ensures
        decoded_view(r) == spec_decode_overview_listing(*j),
{
    let parts = match listing_parts(j) {
        Ok(p) => p,
        Err(e) => return Err(e),
    };
    let children = parts.0;
    let mut out: Vec<OverviewEntry> = Vec::new();
    let mut i: usize = 0;
    proof {
        assert(children@.take(0) =~= Seq::<Json>::empty());
        assert(out.deep_view() =~= Seq::<OverviewEntryV>::empty());
    }
    while i < children.len()
        invariant
            i <= children.len(),
            spec_listing_parts(*j) == Ok::<(Seq<Json>, Option<Seq<char>>), DecodeErrorV>(
                (children@, parts.1.deep_view()),
            ),
            spec_decode_entries(children@.take(i as int), overview_entry_fn()) == Ok::<
                Seq<OverviewEntryV>,
                DecodeErrorV,
            >(out.deep_view()),
        decreases children.len() - i,
    {
        let ghost pre = out.deep_view();
        match decode_overview_entry(&children[i]) {
            Err(e) => {
                proof {
                    assert(overview_entry_fn()(children@[i as int]) == spec_decode_overview_entry(
                        children@[i as int],
                    ));
                    lemma_entries_err(children@, overview_entry_fn(), i as int, e@);
                }
                return Err(e);
            },
            Ok(v) => {
                let ghost vv = v.deep_view();
                out.push(v);
                proof {
                    assert(overview_entry_fn()(children@[i as int]) == spec_decode_overview_entry(
                        children@[i as int],
                    ));
                    assert(out.deep_view() =~= pre.push(vv));
                    assert(children@.take(i as int + 1).drop_last() =~= children@.take(i as int));
                    assert(children@.take(i as int + 1).last() == children@[i as int]);
                }
            },
        }
        i += 1;
    }
    proof {
        assert(children@.take(children@.len() as int) =~= children@);
    }
    Ok(Listing { children: out, after: parts.1 })
}

/// A submissions-listing payload, straight from the response bytes.
pub open spec fn spec_decode_submissions_bytes(bytes: Seq<u8>) -> Result<
    ListingV<SubmissionV>,
    DecodeErrorV,
> {
    match crate::json::json_of(bytes) {
        None => Err(DecodeErrorV::InvalidJson),
        Some(j) => spec_decode_submissions_listing(j),
    }
}

/// Decodes a submissions-listing response body.
pub fn decode_submissions_listing(bytes: &[u8]) -> (r: Result<Listing<Submission>, DecodeError>)
    ensures
        decoded_view(r) == spec_decode_submissions_bytes(bytes@),
{
    match crate::json::parse_json(bytes) {
        None => Err(DecodeError::InvalidJson),
        Some(j) => decode_submissions_listing_json(&j),
    }
}

/// A comments-listing payload, straight from the response bytes.
pub open spec fn spec_decode_comments_bytes(bytes: Seq<u8>) -> Result<
    ListingV<CommentV>,
    DecodeErrorV,
> {
    match crate::json::json_of(bytes) {
        None => Err(DecodeErrorV::InvalidJson),
        Some(j) => spec_decode_comments_listing(j),
    }
}

/// Decodes a comments-listing response body.
pub fn decode_comments_listing(bytes: &[u8]) -> (r: Result<Listing<Comment>, DecodeError>)
    ensures
        decoded_view(r) == spec_decode_comments_bytes(bytes@),
{
    match crate::json::parse_json(bytes) {
        None => Err(DecodeError::InvalidJson),
        Some(j) => decode_comments_listing_json(&j),
    }
}

/// An overview-listing payload, straight from the response bytes.
pub open spec fn spec_decode_overview_bytes(bytes: Seq<u8>) -> Result<
    ListingV<OverviewEntryV>,
    DecodeErrorV,
> {
    match crate::json::json_of(bytes) {
        None => Err(DecodeErrorV::InvalidJson),
        Some(j) => spec_decode_overview_listing(j),
    }
}

/// Decodes an overview-listing response body.
pub fn decode_overview_listing(bytes: &[u8]) -> (r: Result<Listing<OverviewEntry>, DecodeError>)
    ensures
        decoded_view(r) == spec_decode_overview_bytes(bytes@),
{
    match crate::json::parse_json(bytes) {
        None => Err(DecodeError::InvalidJson),
        Some(j) => decode_overview_listing_json(&j),
    }
}

/// For every well-formed submissions-listing payload, decoding preserves
/// entry count and order: the decoded listing holds exactly one submission
/// per entry of the payload's children array, each the decoding of the entry
/// at the same position, and carries the payload's `after` token.
pub proof fn lemma_submissions_count_order(
    j: Json,
    cs: Seq<Json>,
    after: Option<Seq<char>>,
    l: ListingV<SubmissionV>,
)
    requires
        spec_listing_parts(j) == Ok::<(Seq<Json>, Option<Seq<char>>), DecodeErrorV>((cs, after)),
        spec_decode_submissions_listing(j) == Ok::<ListingV<SubmissionV>, DecodeErrorV>(l),
    ensures
        l.children.len() == cs.len(),
        forall|i: int|
            0 <= i < cs.len() ==> spec_decode_submission_entry(cs[i]) == Ok::<
                SubmissionV,
                DecodeErrorV,
            >(l.children[i]),
        l.after == after,
{
    match spec_decode_entries(cs, submission_entry_fn()) {
        Ok(vs) => {
            lemma_entries_ok(cs, submission_entry_fn(), vs);
            assert forall|i: int| 0 <= i < cs.len() implies spec_decode_submission_entry(cs[i])
                == Ok::<SubmissionV, DecodeErrorV>(l.children[i]) by {
                assert(submission_entry_fn()(cs[i]) == spec_decode_submission_entry(cs[i]));
            }
        },
        Err(_) => {
            assert(false);
        },
    }
}

/// For every well-formed overview payload mixing post-kind and comment-kind
/// entries, every entry decodes to the variant its discriminator names —
/// `"t3"` to a post, `"t1"` to a comment — and the entry count in equals the
/// entry count out, in order.
pub proof fn lemma_overview_variants(
    j: Json,
    cs: Seq<Json>,
    after: Option<Seq<char>>,
    l: ListingV<OverviewEntryV>,
)
    requires
        spec_listing_parts(j) == Ok::<(Seq<Json>, Option<Seq<char>>), DecodeErrorV>((cs, after)),
        spec_decode_overview_listing(j) == Ok::<ListingV<OverviewEntryV>, DecodeErrorV>(l),
    ensures
        l.children.len() == cs.len(),
        forall|i: int|
            0 <= i < cs.len() ==> spec_decode_overview_entry(cs[i]) == Ok::<
                OverviewEntryV,
                DecodeErrorV,
            >(l.children[i]),
        forall|i: int|
            0 <= i < cs.len() && spec_entry_kind(cs[i]) == Ok::<Seq<char>, DecodeErrorV>("t3"@)
                ==> l.children[i] is Post,
        forall|i: int|
            0 <= i < cs.len() && spec_entry_kind(cs[i]) == Ok::<Seq<char>, DecodeErrorV>("t1"@)
                ==> l.children[i] is Comment,
        l.after == after,
{
    reveal_strlit("t1");
    reveal_strlit("t3");
    match spec_decode_entries(cs, overview_entry_fn()) {
        Ok(vs) => {
            lemma_entries_ok(cs, overview_entry_fn(), vs);
            assert forall|i: int| 0 <= i < cs.len() implies spec_decode_overview_entry(cs[i])
                == Ok::<OverviewEntryV, DecodeErrorV>(l.children[i]) by {
                assert(overview_entry_fn()(cs[i]) == spec_decode_overview_entry(cs[i]));
            }
            assert("t1"@[1] == '1');
            assert("t3"@[1] == '3');
            assert("t1"@ != "t3"@);
        },
        Err(_) => {
            assert(false);
        },
    }
}

/// An overview payload containing an entry whose discriminator is neither
/// `"t3"` nor `"t1"` decodes to `UnknownEntryKind` carrying that
/// discriminator — the entry is neither dropped nor defaulted — provided
/// every entry before it decodes.
pub proof fn lemma_overview_unknown_kind(
    j: Json,
    cs: Seq<Json>,
    after: Option<Seq<char>>,
    i: int,
    k: Seq<char>,
)
    requires
        spec_listing_parts(j) == Ok::<(Seq<Json>, Option<Seq<char>>), DecodeErrorV>((cs, after)),
        0 <= i < cs.len(),
        forall|m: int| 0 <= m < i ==> spec_decode_overview_entry(cs[m]) is Ok,
        spec_entry_kind(cs[i]) == Ok::<Seq<char>, DecodeErrorV>(k),
        k != "t1"@,
        k != "t3"@,
    ensures
        spec_decode_overview_listing(j) == Err::<ListingV<OverviewEntryV>, DecodeErrorV>(
            DecodeErrorV::UnknownEntryKind(k),
        ),
{
    assert forall|m: int| 0 <= m < cs.take(i).len() implies overview_entry_fn()(
        cs.take(i)[m],
    ) is Ok by {
        assert(cs.take(i)[m] == cs[m]);
        assert(overview_entry_fn()(cs[m]) == spec_decode_overview_entry(cs[m]));
    }
    lemma_entries_all_ok(cs.take(i), overview_entry_fn());
    assert(spec_decode_overview_entry(cs[i]) == Err::<OverviewEntryV, DecodeErrorV>(
        DecodeErrorV::UnknownEntryKind(k),
    ));
    assert(overview_entry_fn()(cs[i]) == spec_decode_overview_entry(cs[i]));
    lemma_entries_err(cs, overview_entry_fn(), i, DecodeErrorV::UnknownEntryKind(k));
}

/// A submissions payload with an entry whose `data` lacks the required
/// identifier decodes to `MissingField` for the identifier — never to a
/// defaulted or zero-valued one — provided every entry before it decodes.
pub proof fn lemma_submissions_missing_id(
    j: Json,
    cs: Seq<Json>,
    after: Option<Seq<char>>,
    i: int,
    d: Seq<(String, Json)>,
)
    requires
        spec_listing_parts(j) == Ok::<(Seq<Json>, Option<Seq<char>>), DecodeErrorV>((cs, after)),
        0 <= i < cs.len(),
        forall|m: int| 0 <= m < i ==> spec_decode_submission_entry(cs[m]) is Ok,
        spec_entry_data(cs[i]) == Ok::<Seq<(String, Json)>, DecodeErrorV>(d),
        spec_get(d, "id"@) is None || spec_get(d, "id"@) == Some(Json::Null),
    ensures
        spec_decode_submissions_listing(j) == Err::<ListingV<SubmissionV>, DecodeErrorV>(
            DecodeErrorV::MissingField("id"@),
        ),
{
    assert forall|m: int| 0 <= m < cs.take(i).len() implies submission_entry_fn()(
        cs.take(i)[m],
    ) is Ok by {
        assert(cs.take(i)[m] == cs[m]);
        assert(submission_entry_fn()(cs[m]) == spec_decode_submission_entry(cs[m]));
    }
    lemma_entries_all_ok(cs.take(i), submission_entry_fn());
    assert(spec_req_str(d, "id"@) == Err::<Seq<char>, DecodeErrorV>(
        DecodeErrorV::MissingField("id"@),
    ));
    assert(spec_decode_submission_entry(cs[i]) == Err::<SubmissionV, DecodeErrorV>(
        DecodeErrorV::MissingField("id"@),
    ));
    assert(submission_entry_fn()(cs[i]) == spec_decode_submission_entry(cs[i]));
    lemma_entries_err(cs, submission_entry_fn(), i, DecodeErrorV::MissingField("id"@));
}

} // verus!
