//! The account query client.
//!
//! A [`User`] holds one account's username and the HTTP transport it owns.
//! Each of the three operations — overview, submitted posts, submitted
//! comments — is one stateless request/decode round trip: build the
//! endpoint's URL, issue a single GET through the transport, interpret the
//! outcome. Building the URL and interpreting the outcome are verified here;
//! issuing the request is I/O and is left to the caller, which hands back
//! either the status and body or the transport's failure.

use vstd::prelude::*;
use vstd::string::StringExecFns;

use crate::responses::{
    spec_decode_comments_bytes, spec_decode_overview_bytes, spec_decode_submissions_bytes, Comment,
    CommentV, DecodeError, DecodeErrorV, Listing, ListingV, OverviewEntry, OverviewEntryV,
    Submission, SubmissionV,
};

verus! {

#[verifier::external_type_specification]
#[verifier::external_body]
pub struct ExClient(reqwest::Client);

#[verifier::external_type_specification]
#[verifier::external_body]
pub struct ExClientBuilder(reqwest::ClientBuilder);

#[verifier::external_type_specification]
#[verifier::external_body]
pub struct ExReqwestError(reqwest::Error);

/// Relies on `reqwest::Client::new`: builds the default transport, with no
/// extra outbound headers and no I/O; it aborts only if the transport's
/// backend cannot initialize at all.
#[verifier::external_body]
fn default_client() -> reqwest::Client {
    reqwest::Client::new()
}

/// Whether the transport accepts this string as a client-identification
/// header value. In this build of reqwest the builder's outcome depends on
/// the agent string alone, so the trusted constructor below ties its result
/// to this name. (http's check, which reqwest applies, passes a byte of the
/// string's UTF-8 encoding iff it is the horizontal tab or a byte of at
/// least 32 other than 127.)
pub uninterp spec fn agent_accepted(agent: Seq<char>) -> bool;

/// Relies on `reqwest::Client::builder`, `ClientBuilder::user_agent` and
/// `ClientBuilder::build`: `user_agent` records the given string as the
/// client-identification header, or records the invalid-header-value error
/// for `build` to report; `build` performs no I/O and — with no TLS or
/// HTTP/3 features compiled in — fails exactly when such an error was
/// recorded. The outcome is therefore a function of the agent string alone:
/// [`agent_accepted`] of it.
#[verifier::external_body]
fn build_agent_client(agent: &str) -> (r: Result<reqwest::Client, reqwest::Error>)
    ensures
        r is Ok <==> agent_accepted(agent@),
{
    reqwest::Client::builder().user_agent(agent).build()
}

/// Relies on `reqwest::Error`'s `Display` impl for a human-readable
/// description of a configuration error.
#[verifier::external_body]
fn error_text(e: &reqwest::Error) -> String {
    format!("{}", e)
}

/// A configuration error met while constructing a client: the caller's
/// settings were rejected before any request was made.
#[derive(Debug, Clone, PartialEq)]
pub struct ConfigError {
    pub message: String,
}

/// The query root: one account's username, and the HTTP transport that the
/// client exclusively owns. The client keeps no per-call state, so separate
/// calls — even concurrent ones — are fully independent.
pub struct User {
    /// User's name.
    pub user: String,
    /// The owned transport; opaque here, used by the caller that issues the
    /// requests.
    pub client: reqwest::Client,
}

/// URL of the account's overview endpoint.
pub open spec fn spec_overview_url(user: Seq<char>) -> Seq<char> {
    "https://www.reddit.com/user/"@ + user + "/overview/.json"@
}

/// URL of the account's submitted-posts endpoint.
pub open spec fn spec_submitted_url(user: Seq<char>) -> Seq<char> {
    "https://www.reddit.com/user/"@ + user + "/submitted/.json"@
}

/// URL of the account's comments endpoint.
pub open spec fn spec_comments_url(user: Seq<char>) -> Seq<char> {
    "https://www.reddit.com/user/"@ + user + "/comments/.json"@
}

impl User {
    /// The username this client queries for: the view of its `user` field.
    pub open spec fn spec_user(self) -> Seq<char> {
        self.user@
    }

    /// Create a new `User` instance with the default transport.
    pub fn new(user: &str) -> (r: User)
        ensures
            r.spec_user() == user@,
    {
        User { user: String::from_str(user), client: default_client() }
    }

    /// Create a new `User` instance whose transport sends `agent` as the
    /// client-identification header on every request. Construction performs
    /// no I/O; it succeeds, with the username recorded, exactly when the
    /// transport accepts `agent` as a header value, and an invalid `agent`
    /// is a configuration error — the only construction-time failure.
    pub fn new_with_agent(user: &str, agent: &str) -> (r: Result<User, ConfigError>)
        ensures
            r is Ok <==> agent_accepted(agent@),
            r matches Ok(u) ==> u.spec_user() == user@,
    {
        match build_agent_client(agent) {
            Ok(c) => Ok(User { user: String::from_str(user), client: c }),
            Err(e) => Err(ConfigError { message: error_text(&e) }),
        }
    }

    /// The owned transport, for the caller that issues the requests.
    pub fn client(&self) -> &reqwest::Client {
        &self.client
    }

    /// The URL the overview operation requests.
    pub fn overview_url(&self) -> (r: String)
        ensures
            r@ == spec_overview_url(self.spec_user()),
    {
        let mut s = String::from_str("https://www.reddit.com/user/");
        s.append(self.user.as_str());
        s.append("/overview/.json");
        s
    }

    /// The URL the submitted operation requests.
    pub fn submitted_url(&self) -> (r: String)
        ensures
            r@ == spec_submitted_url(self.spec_user()),
    {
        let mut s = String::from_str("https://www.reddit.com/user/");
        s.append(self.user.as_str());
        s.append("/submitted/.json");
        s
    }

    /// The URL the comments operation requests.
    pub fn comments_url(&self) -> (r: String)
        ensures
            r@ == spec_comments_url(self.spec_user()),
    {
        let mut s = String::from_str("https://www.reddit.com/user/");
        s.append(self.user.as_str());
        s.append("/comments/.json");
        s
    }
}

/// A failure at or below the transport.
#[derive(Debug, Clone, PartialEq)]
pub enum TransportFailure {
    /// The exchange did not complete — connection, name resolution, timeout,
    /// or an unreadable body — with the transport's description of it.
    Network(String),
    /// The platform answered with this non-success status and a body that
    /// did not decode.
    Status(u16),
}

/// The mathematical value of a [`TransportFailure`].
pub enum TransportFailureV {
    Network(Seq<char>),
    Status(u16),
}

impl View for TransportFailure {
    type V = TransportFailureV;

    open spec fn view(&self) -> TransportFailureV {
        match self {
            TransportFailure::Network(m) => TransportFailureV::Network(m@),
            TransportFailure::Status(s) => TransportFailureV::Status(*s),
        }
    }
}

impl DeepView for TransportFailure {
    type V = TransportFailureV;

    open spec fn deep_view(&self) -> TransportFailureV {
        self.view()
    }
}

/// Why a query failed: a transport-level failure, passed through unmodified
/// and never retried here, or a decode-level failure, always surfaced and
/// never recovered by substituting defaults.
#[derive(Debug, Clone, PartialEq)]
pub enum QueryError {
    Transport(TransportFailure),
    Decode(DecodeError),
}

/// The mathematical value of a [`QueryError`].
pub enum QueryErrorV {
    Transport(TransportFailureV),
    Decode(DecodeErrorV),
}

impl View for QueryError {
    type V = QueryErrorV;

    open spec fn view(&self) -> QueryErrorV {
        match self {
            QueryError::Transport(t) => QueryErrorV::Transport(t@),
            QueryError::Decode(e) => QueryErrorV::Decode(e@),
        }
    }
}

impl DeepView for QueryError {
    type V = QueryErrorV;

    open spec fn deep_view(&self) -> QueryErrorV {
        self.view()
    }
}

/// The mathematical value of a query result.
pub open spec fn query_view<T: DeepView>(r: Result<T, QueryError>) -> Result<T::V, QueryErrorV> {
    match r {
        Ok(t) => Ok(t.deep_view()),
        Err(e) => Err(e@),
    }
}

/// How one exchange with the platform went: either the response status and
/// body, or the transport's failure.
pub type FetchOutcome = Result<(u16, Vec<u8>), TransportFailure>;

/// The mathematical value of a [`FetchOutcome`].
pub open spec fn outcome_view(o: FetchOutcome) -> Result<(u16, Seq<u8>), TransportFailureV> {
    match o {
        Ok(p) => Ok((p.0, p.1@)),
        Err(t) => Err(t@),
    }
}

/// True for HTTP status codes that signal success.
pub open spec fn spec_status_success(status: u16) -> bool {
    200 <= status < 300
}

/// Whether an HTTP status code signals success.
pub fn status_success(status: u16) -> (r: bool)
    ensures
        r == spec_status_success(status),
{
    200 <= status && status < 300
}

/// What the overview operation returns for a given exchange outcome: a
/// transport failure passes through; a received body is decoded whatever
/// the status was, and when decoding fails the error is a decode error on a
/// success status but the status itself on any other.
pub open spec fn spec_overview_outcome(o: Result<(u16, Seq<u8>), TransportFailureV>) -> Result<
    ListingV<OverviewEntryV>,
    QueryErrorV,
> {
    match o {
        Err(t) => Err(QueryErrorV::Transport(t)),
        Ok(p) => match spec_decode_overview_bytes(p.1) {
            Ok(l) => Ok(l),
            Err(e) => if spec_status_success(p.0) {
                Err(QueryErrorV::Decode(e))
            } else {
                Err(QueryErrorV::Transport(TransportFailureV::Status(p.0)))
            },
        },
    }
}

/// What the submitted operation returns for a given exchange outcome.
pub open spec fn spec_submitted_outcome(o: Result<(u16, Seq<u8>), TransportFailureV>) -> Result<
    ListingV<SubmissionV>,
    QueryErrorV,
> {
    match o {
        Err(t) => Err(QueryErrorV::Transport(t)),
        Ok(p) => match spec_decode_submissions_bytes(p.1) {
            Ok(l) => Ok(l),
            Err(e) => if spec_status_success(p.0) {
                Err(QueryErrorV::Decode(e))
            } else {
                Err(QueryErrorV::Transport(TransportFailureV::Status(p.0)))
            },
        },
    }
}

/// What the comments operation returns for a given exchange outcome.
pub open spec fn spec_comments_outcome(o: Result<(u16, Seq<u8>), TransportFailureV>) -> Result<
    ListingV<CommentV>,
    QueryErrorV,
> {
    match o {
        Err(t) => Err(QueryErrorV::Transport(t)),
        Ok(p) => match spec_decode_comments_bytes(p.1) {
            Ok(l) => Ok(l),
            Err(e) => if spec_status_success(p.0) {
                Err(QueryErrorV::Decode(e))
            } else {
                Err(QueryErrorV::Transport(TransportFailureV::Status(p.0)))
            },
        },
    }
}

/// Interprets an overview exchange.
pub fn overview_from_outcome(outcome: FetchOutcome) -> (r: Result<
    Listing<OverviewEntry>,
    QueryError,
>)
    ensures
        query_view(r) == spec_overview_outcome(outcome_view(outcome)),
{
    match outcome {
        Err(t) => Err(QueryError::Transport(t)),
        Ok(p) => {
            let status = p.0;
            match crate::responses::decode_overview_listing(p.1.as_slice()) {
                Ok(l) => Ok(l),
                Err(e) => if status_success(status) {
                    Err(QueryError::Decode(e))
                } else {
                    Err(QueryError::Transport(TransportFailure::Status(status)))
                },
            }
        },
    }
}

/// Interprets a submitted-posts exchange.
pub fn submitted_from_outcome(outcome: FetchOutcome) -> (r: Result<
    Listing<Submission>,
    QueryError,
>)
    ensures
        query_view(r) == spec_submitted_outcome(outcome_view(outcome)),
{
    match outcome {
        Err(t) => Err(QueryError::Transport(t)),
        Ok(p) => {
            let status = p.0;
            match crate::responses::decode_submissions_listing(p.1.as_slice()) {
                Ok(l) => Ok(l),
                Err(e) => if status_success(status) {
                    Err(QueryError::Decode(e))
                } else {
                    Err(QueryError::Transport(TransportFailure::Status(status)))
                },
            }
        },
    }
}

/// Interprets a comments exchange.
pub fn comments_from_outcome(outcome: FetchOutcome) -> (r: Result<Listing<Comment>, QueryError>)
    ensures
        query_view(r) == spec_comments_outcome(outcome_view(outcome)),
{
    match outcome {
        Err(t) => Err(QueryError::Transport(t)),
        Ok(p) => {
            let status = p.0;
            match crate::responses::decode_comments_listing(p.1.as_slice()) {
                Ok(l) => Ok(l),
                Err(e) => if status_success(status) {
                    Err(QueryError::Decode(e))
                } else {
                    Err(QueryError::Transport(TransportFailure::Status(status)))
                },
            }
        },
    }
}

/// Idempotence of a query: each operation's result is a function of the
/// exchange outcome alone, so repeating the same query against an unchanged
/// platform — the same status and body, or the same transport failure —
/// interprets to a structurally equal result, for all three operations.
pub proof fn lemma_query_idempotent(
    o1: Result<(u16, Seq<u8>), TransportFailureV>,
    o2: Result<(u16, Seq<u8>), TransportFailureV>,
)
    requires
        o1 == o2,
    ensures
        spec_overview_outcome(o1) == spec_overview_outcome(o2),
        spec_submitted_outcome(o1) == spec_submitted_outcome(o2),
        spec_comments_outcome(o1) == spec_comments_outcome(o2),
{
}

} // verus!
