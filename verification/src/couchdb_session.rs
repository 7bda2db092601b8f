//! The CouchDB session store: how it addresses documents, builds requests
//! and reads CouchDB's answers.
//!
//! The requests themselves are sent by the caller, which hands back the
//! status codes and bodies it receives.

use crate::config::{namespaced_key, SessionConfig};
use crate::error::{SessionError, SessionResult};
use crate::session::{expired_at, Session};
use crate::text::{concat, starts_with, trim_end, trim_end_char};
use crate::time::{is_clock_reading, now_utc, rfc3339_text, Timestamp};
use vstd::prelude::*;

verus! {

#[verifier::external_type_specification]
#[verifier::external_body]
pub struct ExHttpClient(reqwest::Client);

#[verifier::external_type_specification]
#[verifier::external_body]
pub struct ExHttpMethod(reqwest::Method);

#[verifier::external_type_specification]
#[verifier::external_body]
pub struct ExRequestBuilder(reqwest::RequestBuilder);

/// Whether `c` is a hexadecimal digit, in either case.
pub open spec fn is_hex_digit(c: char) -> bool {
    ('0' <= c && c <= '9') || ('a' <= c && c <= 'f') || ('A' <= c && c <= 'F')
}

/// Whether `s` is 32 hexadecimal digits.
pub open spec fn is_simple_uuid_text(s: Seq<char>) -> bool {
    s.len() == 32 && forall|i: int| 0 <= i < 32 ==> #[trigger] is_hex_digit(s[i])
}

/// Whether `s` is 36 characters with hyphens at positions 8, 13, 18 and 23
/// and hexadecimal digits, in either case, elsewhere.
pub open spec fn is_hyphenated_uuid_text(s: Seq<char>) -> bool {
    &&& s.len() == 36
    &&& forall|i: int|
        0 <= i < 36 ==> if i == 8 || i == 13 || i == 18 || i == 23 {
            #[trigger] s[i] == '-'
        } else {
            is_hex_digit(s[i])
        }
}

/// Whether `c` equals `lower` once ASCII upper-case letters are taken to
/// lower case.
pub open spec fn same_ignoring_ascii_case(c: char, lower: char) -> bool {
    c == lower || ('a' <= lower && lower <= 'z' && c as int == lower as int - 32)
}

/// Whether `s` is a UUID text that `uuid::Uuid::parse_str` accepts: 32
/// hexadecimal digits; the hyphenated form; the hyphenated form in braces;
/// or `urn:uuid:`, in any case, followed by the hyphenated form.
pub open spec fn uuid_accepts(s: Seq<char>) -> bool {
    ||| is_simple_uuid_text(s)
    ||| is_hyphenated_uuid_text(s)
    ||| s.len() == 38 && s[0] == '{' && s[37] == '}' && is_hyphenated_uuid_text(s.subrange(1, 37))
    ||| s.len() == 45 && (forall|i: int|
        0 <= i < 9 ==> #[trigger] same_ignoring_ascii_case(s[i], "urn:uuid:"@[i]))
        && is_hyphenated_uuid_text(s.subrange(9, 45))
}

/// The text that `format!("{:?}", s)` gives for a string `s`.
pub uninterp spec fn str_debug_text(s: Seq<char>) -> Seq<char>;

/// The text that `http::StatusCode`'s `Display` gives for `code`.
pub uninterp spec fn status_text(code: u16) -> Seq<char>;

/// Whether `url::Url::parse` accepts `url`.
pub uninterp spec fn url_parses(url: Seq<char>) -> bool;

/// The text of the error with which `url::Url::parse` rejects `url`.
pub uninterp spec fn url_parse_error_text(url: Seq<char>) -> Seq<char>;

/// Whether the URL that `url::Url::parse` makes of `url` cannot be a base,
/// so that it has no path segments.
pub uninterp spec fn url_cannot_be_a_base(url: Seq<char>) -> bool;

/// The text of the URL parsed from `url` after `segment` is pushed onto its
/// path segments, percent-encoded.
pub uninterp spec fn url_with_segment(url: Seq<char>, segment: Seq<char>) -> Seq<char>;

/// The length in bytes of the text of the URL that `url::Url::parse` makes
/// of `url`.
pub uninterp spec fn url_serialized_length(url: Seq<char>) -> nat;

/// Whether pushing `segment` onto the path of a URL whose text is
/// `url_length` bytes long keeps the URL within the `u32` offsets that
/// `url` keeps: each byte of the segment percent-encodes to at most three,
/// a slash goes before it, and a `file` URL's drive letter can take one
/// slash more.
pub open spec fn segment_fits(url_length: nat, segment: Seq<char>) -> bool {
    url_length + 3 * vstd::utf8::encode_utf8(segment).len() + 2 < 0x1_0000_0000
}

/// The HTTP basic credentials that the request held by `request` carries in
/// its `Authorization` headers, in the order they were added: each a user
/// name and, where one was given, a password. Empty when the builder holds
/// an error in place of a request.
pub uninterp spec fn basic_auths_of(request: reqwest::RequestBuilder) -> Seq<(Seq<char>, Option<Seq<char>>)>;

/// Whether `request` holds a request rather than an error.
pub uninterp spec fn builds_request(request: reqwest::RequestBuilder) -> bool;

/// The method of the request that `request` holds.
pub uninterp spec fn method_of(request: reqwest::RequestBuilder) -> reqwest::Method;

/// The text of the URL of the request that `request` holds.
pub uninterp spec fn url_of(request: reqwest::RequestBuilder) -> Seq<char>;

/// Whether `reqwest::Client::request` can make a request URL of `url`:
/// `url::Url::parse` accepts it and the URL has a host.
pub uninterp spec fn client_accepts_url(url: Seq<char>) -> bool;

/// The text of the URL that `reqwest::Client::request` makes of `url`: `url`
/// parsed, without the user information that it takes as credentials.
pub uninterp spec fn request_url_text(url: Seq<char>) -> Seq<char>;

/// The basic credentials that `reqwest::Client::request` takes from the
/// user information of `url`, percent-decoded: none when `url` carries
/// none, or when the client cannot make a URL of it.
pub uninterp spec fn url_credentials(url: Seq<char>) -> Seq<(Seq<char>, Option<Seq<char>>)>;

/// Whether `uuid::Uuid::parse_str` accepts `s`.
///
/// The contract states the forms that `uuid`'s parser accepts (its
/// `try_parse` dispatches on the byte length: 32 hex digits; 36 hyphenated;
/// 38 braced; 45 with a case-insensitive `urn:uuid:` prefix; its hex decoder
/// takes `0`-`9`, `a`-`f` and `A`-`F` only). Every accepted text is ASCII,
/// so its byte positions are its character positions.
#[verifier::external_body]
fn uuid_parses(s: &str) -> (r: bool)
    ensures
        r == uuid_accepts(s@),
{
    uuid::Uuid::parse_str(s).is_ok()
}

/// `s` written with `std`'s `Debug` for strings: quoted, with escapes.
#[verifier::external_body]
fn debug_text(s: &str) -> (r: String)
    ensures
        r@ == str_debug_text(s@),
{
    format!("{:?}", s)
}

/// The status code `code` written with `http::StatusCode`'s `Display`: the
/// number and its canonical reason.
#[verifier::external_body]
fn http_status_text(code: u16) -> (r: String)
    requires
        100 <= code <= 999,
    ensures
        r@ == status_text(code),
{
    match reqwest::StatusCode::from_u16(code) {
        Ok(status) => status.to_string(),
        Err(_) => String::new(),
    }
}

/// The length in bytes of the URL that `url::Url::parse` makes of `url`
/// (`Url::as_str`), or `None` when it rejects `url`.
#[verifier::external_body]
fn parsed_url_length(url: &str) -> (r: Option<usize>)
    ensures
        r is Some <==> url_parses(url@),
        r matches Some(n) ==> n == url_serialized_length(url@),
{
    match reqwest::Url::parse(url) {
        Ok(parsed) => Some(parsed.as_str().len()),
        Err(_) => None,
    }
}

/// What becomes of a URL when a path segment is pushed onto it.
enum SegmentUrl {
    /// The resulting URL
    Built(String),
    /// The base URL does not parse; the parser's message
    Unparsable(String),
    /// The base URL has no path segments
    CannotBeABase,
}

/// Parse `base` with `url::Url::parse`, push `segment` onto its path
/// segments (`PathSegmentsMut::push`, which percent-encodes it, `/`
/// included) and write the URL out.
///
/// The contract ties each outcome to names of these functions' results on
/// `base` and `segment`; what the URL text is, is left to the names. `url`
/// keeps the offsets into a URL's text as `u32` and panics when the pushed
/// segment takes the text past that (`to_u32(..).unwrap()` in
/// `Url::restore_after_path`); the precondition keeps the text within it.
#[verifier::external_body]
fn push_path_segment(base: &str, segment: &str) -> (r: SegmentUrl)
    requires
        url_parses(base@) ==> segment_fits(url_serialized_length(base@), segment@),
    ensures
        r is Unparsable <==> !url_parses(base@),
        r matches SegmentUrl::Unparsable(m) ==> m@ == url_parse_error_text(base@),
        r is CannotBeABase <==> (url_parses(base@) && url_cannot_be_a_base(base@)),
        r matches SegmentUrl::Built(u) ==> u@ == url_with_segment(base@, segment@),
{
    let mut url = match reqwest::Url::parse(base) {
        Ok(url) => url,
        Err(e) => return SegmentUrl::Unparsable(e.to_string()),
    };
    match url.path_segments_mut() {
        Ok(mut segments) => {
            segments.push(segment);
        },
        Err(()) => return SegmentUrl::CannotBeABase,
    }
    SegmentUrl::Built(url.to_string())
}

/// A request with `method` to `url` from `client` (`reqwest::Client::request`).
///
/// The builder holds a request exactly when the client can make a URL of
/// `url`; that request has `method`, the URL made of `url`, and as basic
/// credentials those that the client takes from the user information of
/// `url` (`RequestBuilder::new` hands them to `basic_auth`). The client's
/// own settings, which it applies when the request is sent, are not stated.
#[verifier::external_body]
fn client_request(client: &reqwest::Client, method: reqwest::Method, url: &str) -> (r: reqwest::RequestBuilder)
    ensures
        builds_request(r) == client_accepts_url(url@),
        builds_request(r) ==> method_of(r) == method,
        builds_request(r) ==> url_of(r) == request_url_text(url@),
        basic_auths_of(r) == url_credentials(url@),
{
    client.request(method, url)
}

/// `request` with HTTP basic authentication as `username` and `password`
/// (`reqwest::RequestBuilder::basic_auth`), which appends an
/// `Authorization` header to the request it holds and leaves a builder
/// that holds an error as it is.
#[verifier::external_body]
fn with_basic_auth(request: reqwest::RequestBuilder, username: &str, password: &str) -> (r: reqwest::RequestBuilder)
    ensures
        builds_request(r) == builds_request(request),
        builds_request(request) ==> method_of(r) == method_of(request),
        builds_request(request) ==> url_of(r) == url_of(request),
        basic_auths_of(r) == if builds_request(request) {
            basic_auths_of(request).push((username@, Some(password@)))
        } else {
            basic_auths_of(request)
        },
{
    request.basic_auth(username, Some(password))
}

/// Whether `status` reports success (200 to 299), as
/// `http::StatusCode::is_success` decides.
pub open spec fn is_success_status(status: u16) -> bool {
    200 <= status < 300
}

/// Whether `status` reports success (200 to 299).
pub fn is_success(status: u16) -> (r: bool)
    ensures
        r == is_success_status(status),
{
    200 <= status && status < 300
}

/// The status code with which CouchDB reports a missing document.
pub const NOT_FOUND: u16 = 404;

/// The URL of the CouchDB database at `url`: `url` without trailing
/// slashes, a slash, and the database name.
pub open spec fn database_url_spec(url: Seq<char>, database: Seq<char>) -> Seq<char> {
    trim_end_char(url, '/') + "/"@ + database
}

/// The error whose message is `prefix` followed by the text of `status`.
pub open spec fn couchdb_failure(e: SessionError, prefix: Seq<char>, status: u16) -> bool {
    e matches SessionError::CouchDb(m) && m@ == prefix + status_text(status)
}

/// The deletion URLs, `{base}/{id}?rev={rev}`, of the rows of `rows` that
/// carry a document with a revision, in order.
pub open spec fn deletion_targets(
    base: Seq<char>,
    rows: Seq<Option<(String, Option<String>)>>,
) -> Seq<Seq<char>>
    decreases rows.len(),
{
    if rows.len() == 0 {
        Seq::empty()
    } else {
        let earlier = deletion_targets(base, rows.drop_last());
        match rows.last() {
            Some((id, Some(rev))) => earlier.push(base + "/"@ + id@ + "?rev="@ + rev@),
            _ => earlier,
        }
    }
}

/// The number of rows of `rows` that are active sessions of the namespace
/// whose keys begin with `prefix` when the clock reads `now`: rows whose
/// document ID begins with `prefix` and whose document is a session that
/// has not expired at `now`.
pub open spec fn active_sessions(
    prefix: Seq<char>,
    rows: Seq<(String, Option<Session>)>,
    now: Timestamp,
) -> nat
    decreases rows.len(),
{
    if rows.len() == 0 {
        0
    } else {
        active_sessions(prefix, rows.drop_last(), now) + if prefix.is_prefix_of(rows.last().0@) && (
        rows.last().1 matches Some(s) && !expired_at(s, now)) {
            1nat
        } else {
            0nat
        }
    }
}

/// The deletion URL, `{base}/{id}?rev={rev}`, of each row `(id, rev)` of
/// `rows`, in order.
pub open spec fn clearing_targets(base: Seq<char>, rows: Seq<(String, String)>) -> Seq<Seq<char>> {
    rows.map_values(|row: (String, String)| base + "/"@ + row.0@ + "?rev="@ + row.1@)
}

/// The number of `true` entries of `s`.
pub open spec fn count_true(s: Seq<bool>) -> nat
    decreases s.len(),
{
    if s.len() == 0 {
        0
    } else {
        count_true(s.drop_last()) + if s.last() {
            1nat
        } else {
            0nat
        }
    }
}

/// The text of each string of `s`.
pub open spec fn texts(s: Seq<String>) -> Seq<Seq<char>> {
    s.map_values(|t: String| t@)
}

/// CouchDB-backed session store.
pub struct CouchDbSessionStore {
    client: reqwest::Client,
    config: SessionConfig,
    base_url: String,
    /// The length in bytes of the parsed database URL; `None` when it does
    /// not parse.
    url_length: Option<usize>,
}

impl SessionConfig {
    /// The CouchDB credentials, when both a user name and a password are set.
    pub fn credentials(&self) -> (r: Option<(&String, &String)>)
        ensures
            r is Some <==> (self.username is Some && self.password is Some),
            r matches Some((u, p)) ==> Some(*u) == self.username && Some(*p) == self.password,
    {
        match (&self.username, &self.password) {
            (Some(u), Some(p)) => Some((u, p)),
            _ => None,
        }
    }
}

impl CouchDbSessionStore {
    #[verifier::type_invariant]
    spec fn addressed(self) -> bool {
        &&& self.config.database matches Some(db) && self.base_url@ == database_url_spec(
            self.config.url@,
            db@,
        )
        &&& (self.url_length is Some <==> url_parses(self.base_url@))
        &&& self.url_length matches Some(n) ==> n == url_serialized_length(self.base_url@)
    }

    /// Whether `segment` can be pushed onto the path of the database URL
    /// without taking the URL past the length that `url` can address: always
    /// when the database URL does not parse.
    pub closed spec fn fits_segment(self, segment: Seq<char>) -> bool {
        url_parses(self.base_url@) ==> segment_fits(url_serialized_length(self.base_url@), segment)
    }

    /// The configuration.
    pub closed spec fn spec_config(self) -> SessionConfig {
        self.config
    }

    /// The URL of the database.
    pub closed spec fn spec_base_url(self) -> Seq<char> {
        self.base_url@
    }

    /// The URL of the database that `config` names: its URL without
    /// trailing slashes, a slash and the database name; a `Config` error
    /// when no database is named.
    pub fn database_url(config: &SessionConfig) -> (r: SessionResult<String>)
        ensures
            r is Err <==> config.database is None,
            r matches Err(e) ==> e matches SessionError::Config(m)
                && m@ == "CouchDB database name is required"@,
            r matches Ok(u) ==> config.database matches Some(db) && u@ == database_url_spec(
                config.url@,
                db@,
            ),
    {
        match &config.database {
            Some(database) => {
                let trimmed = trim_end(config.url.as_str(), '/');
                let with_slash = concat(trimmed.as_str(), "/");
                Ok(concat(with_slash.as_str(), database.as_str()))
            },
            None => Err(SessionError::Config("CouchDB database name is required".to_owned())),
        }
    }

    /// A store that reaches CouchDB through `client`; a `Config` error when
    /// `config` names no database. No request is sent.
    pub fn from_client(client: reqwest::Client, config: SessionConfig) -> (r: SessionResult<Self>)
        ensures
            r is Err <==> config.database is None,
            r matches Err(e) ==> e matches SessionError::Config(m)
                && m@ == "CouchDB database name is required"@,
            r matches Ok(s) ==> s.spec_config() == config,
            r matches Ok(s) ==> (config.database matches Some(db)
                && s.spec_base_url() == database_url_spec(config.url@, db@)),
    {
        let base_url = Self::database_url(&config)?;
        let url_length = parsed_url_length(base_url.as_str());
        Ok(CouchDbSessionStore { client, config, base_url, url_length })
    }

    /// The configuration.
    pub fn config(&self) -> (r: &SessionConfig)
        ensures
            *r == self.spec_config(),
    {
        &self.config
    }

    /// The URL of the database.
    pub fn base_url(&self) -> (r: &str)
        ensures
            r@ == self.spec_base_url(),
    {
        self.base_url.as_str()
    }

    /// The outcome of the check that the database exists, answered with
    /// `status`: success, or a `Connection` error naming the database.
    pub fn connection_result(&self, status: u16) -> (r: SessionResult<()>)
        requires
            100 <= status <= 999,
        ensures
            r is Ok <==> is_success_status(status),
            r matches Err(e) ==> self.spec_config().database matches Some(db)
                && e matches SessionError::Connection(m)
                && m@ == "Failed to connect to CouchDB database '"@ + db@ + "': "@
                + status_text(status),
    {
        proof {
            use_type_invariant(self);
        }
        if is_success(status) {
            return Ok(());
        }
        let database = match &self.config.database {
            Some(db) => db.as_str(),
            None => "",
        };
        let a = concat("Failed to connect to CouchDB database '", database);
        let b = concat(a.as_str(), "': ");
        let text = http_status_text(status);
        Err(SessionError::Connection(concat(b.as_str(), text.as_str())))
    }

    /// Get the document ID for a session: `{namespace}:{session_id}`.
    ///
    /// Only IDs that `uuid` parses (the format that
    /// [`crate::session::generate_session_id`] produces among them) are
    /// accepted, so that an ID can never address another document, an
    /// attachment or a view; anything else is an `InvalidSessionId` error.
    pub fn doc_id(&self, session_id: &str) -> (r: SessionResult<String>)
        ensures
            r is Ok <==> uuid_accepts(session_id@),
            crate::session::is_hyphenated_uuid(session_id@) ==> r is Ok,
            r matches Ok(id) ==> id@ == namespaced_key(self.spec_config().namespace@, session_id@),
            r matches Err(e) ==> e matches SessionError::InvalidSessionId(m)
                && m@ == "session_id must be a valid UUID, got: "@ + str_debug_text(session_id@),
    {
        proof {
            if crate::session::is_hyphenated_uuid(session_id@) {
                assert forall|i: int| 0 <= i < 36 implies if i == 8 || i == 13 || i == 18 || i == 23 {
                    #[trigger] session_id@[i] == '-'
                } else {
                    is_hex_digit(session_id@[i])
                } by {
                    if !(i == 8 || i == 13 || i == 18 || i == 23) {
                        assert(crate::session::is_lower_hex_digit(session_id@[i]));
                    }
                }
                assert(is_hyphenated_uuid_text(session_id@));
            }
        }
        if !uuid_parses(session_id) {
            let shown = debug_text(session_id);
            return Err(
                SessionError::InvalidSessionId(
                    concat("session_id must be a valid UUID, got: ", shown.as_str()),
                ),
            );
        }
        Ok(self.config.session_key(session_id))
    }

    /// Whether `segment` can be pushed onto the path of the database URL
    /// without taking the URL past the length that `url` can address.
    pub fn segment_fits(&self, segment: &str) -> (r: bool)
        ensures
            r == self.fits_segment(segment@),
    {
        proof {
            use_type_invariant(self);
        }
        match self.url_length {
            Some(n) => {
                let bytes: usize = segment.as_bytes().len();
                (n as u128) + 3 * (bytes as u128) + 2 < 0x1_0000_0000u128
            },
            None => true,
        }
    }

    /// Build the request URL for an already-validated document ID: the
    /// database URL with `doc_id` pushed as one percent-encoded path
    /// segment.
    pub fn doc_url_from_id(&self, doc_id: &str) -> (r: SessionResult<String>)
        requires
            self.fits_segment(doc_id@),
        ensures
            r is Ok <==> url_parses(self.spec_base_url()) && !url_cannot_be_a_base(
                self.spec_base_url(),
            ),
            r matches Ok(u) ==> u@ == url_with_segment(self.spec_base_url(), doc_id@),
            !url_parses(self.spec_base_url()) ==> (r matches Err(e)
                && e matches SessionError::InvalidUrl(m)
                && m@ == url_parse_error_text(self.spec_base_url())),
            url_parses(self.spec_base_url()) && url_cannot_be_a_base(self.spec_base_url())
                ==> (r matches Err(e) && e matches SessionError::InvalidUrl(m)
                && m@ == "CouchDB base URL cannot be a base"@),
    {
        proof {
            use_type_invariant(self);
        }
        match push_path_segment(self.base_url.as_str(), doc_id) {
            SegmentUrl::Built(url) => Ok(url),
            SegmentUrl::Unparsable(message) => Err(SessionError::InvalidUrl(message)),
            SegmentUrl::CannotBeABase => Err(
                SessionError::InvalidUrl("CouchDB base URL cannot be a base".to_owned()),
            ),
        }
    }

    /// Validate `session_id` and build the request URL for its document.
    pub fn doc_url(&self, session_id: &str) -> (r: SessionResult<String>)
        requires
            uuid_accepts(session_id@) ==> self.fits_segment(
                namespaced_key(self.spec_config().namespace@, session_id@),
            ),
        ensures
            r is Ok <==> uuid_accepts(session_id@) && url_parses(self.spec_base_url())
                && !url_cannot_be_a_base(self.spec_base_url()),
            r matches Ok(u) ==> u@ == url_with_segment(
                self.spec_base_url(),
                namespaced_key(self.spec_config().namespace@, session_id@),
            ),
            !uuid_accepts(session_id@) ==> (r matches Err(e)
                && e matches SessionError::InvalidSessionId(_)),
    {
        let doc_id = self.doc_id(session_id)?;
        self.doc_url_from_id(doc_id.as_str())
    }

    /// What [`CouchDbSessionStore::document_url`] gives for the document
    /// `doc_id`: an `InvalidUrl` error when the ID would take the URL past
    /// the length that `url` can address, or when the database URL does not
    /// parse or cannot be a base; otherwise the database URL with `doc_id`
    /// pushed as one path segment.
    pub open spec fn document_url_result(self, doc_id: Seq<char>, r: SessionResult<String>) -> bool {
        let base = self.spec_base_url();
        if !self.fits_segment(doc_id) {
            r matches Err(e) && e matches SessionError::InvalidUrl(m)
                && m@ == "CouchDB document URL is too long"@
        } else if !url_parses(base) {
            r matches Err(e) && e matches SessionError::InvalidUrl(m) && m@ == url_parse_error_text(
                base,
            )
        } else if url_cannot_be_a_base(base) {
            r matches Err(e) && e matches SessionError::InvalidUrl(m)
                && m@ == "CouchDB base URL cannot be a base"@
        } else {
            r matches Ok(u) && u@ == url_with_segment(base, doc_id)
        }
    }

    /// The request URL for an already-validated document ID, as
    /// [`CouchDbSessionStore::doc_url_from_id`] builds it; an `InvalidUrl`
    /// error, in place of `url`'s panic, when the ID would take the URL past
    /// the length that `url` can address.
    pub fn document_url(&self, doc_id: &str) -> (r: SessionResult<String>)
        ensures
            self.document_url_result(doc_id@, r),
    {
        if !self.segment_fits(doc_id) {
            return Err(SessionError::InvalidUrl("CouchDB document URL is too long".to_owned()));
        }
        self.doc_url_from_id(doc_id)
    }

    /// Validate `session_id` and build the request URL for its document, as
    /// [`CouchDbSessionStore::doc_url`] does; an `InvalidUrl` error, in place
    /// of `url`'s panic, when the document ID would take the URL past the
    /// length that `url` can address.
    pub fn session_url(&self, session_id: &str) -> (r: SessionResult<String>)
        ensures
            !uuid_accepts(session_id@) ==> (r matches Err(e) && e matches SessionError::InvalidSessionId(
                m,
            ) && m@ == "session_id must be a valid UUID, got: "@ + str_debug_text(session_id@)),
            uuid_accepts(session_id@) ==> self.document_url_result(
                namespaced_key(self.spec_config().namespace@, session_id@),
                r,
            ),
    {
        let doc_id = self.doc_id(session_id)?;
        self.document_url(doc_id.as_str())
    }

    /// Build a request with `method` to `url`, with basic authentication
    /// when both a user name and a password are configured: the configured
    /// credentials follow those that the client takes from `url` itself.
    pub fn request(&self, method: reqwest::Method, url: &str) -> (r: reqwest::RequestBuilder)
        ensures
            builds_request(r) == client_accepts_url(url@),
            builds_request(r) ==> method_of(r) == method,
            builds_request(r) ==> url_of(r) == request_url_text(url@),
            basic_auths_of(r) == url_credentials(url@) + match (
                self.spec_config().username,
                self.spec_config().password,
            ) {
                (Some(u), Some(p)) => if builds_request(r) {
                    seq![(u@, Some(p@))]
                } else {
                    Seq::empty()
                },
                _ => Seq::empty(),
            },
    {
        let request = client_request(&self.client, method, url);
        match self.config.credentials() {
            Some((username, password)) => {
                let ghost before = basic_auths_of(request);
                let authed = with_basic_auth(request, username.as_str(), password.as_str());
                proof {
                    assert(before.push((username@, Some(password@))) =~= before + seq![
                        (username@, Some(password@)),
                    ]);
                    assert(before =~= before + Seq::<(Seq<char>, Option<Seq<char>>)>::empty());
                }
                authed
            },
            None => {
                proof {
                    assert(basic_auths_of(request) =~= basic_auths_of(request) + Seq::<
                        (Seq<char>, Option<Seq<char>>),
                    >::empty());
                }
                request
            },
        }
    }

    /// Read the status of a document fetch: `Ok(true)` when the document
    /// came back, `Ok(false)` when it does not exist (404), and a `CouchDb`
    /// error otherwise.
    pub fn get_result(status: u16) -> (r: SessionResult<bool>)
        requires
            100 <= status <= 999,
        ensures
            r == Ok::<bool, SessionError>(true) <==> is_success_status(status),
            r == Ok::<bool, SessionError>(false) <==> status == NOT_FOUND,
            r matches Err(e) ==> couchdb_failure(e, "Failed to get session: "@, status),
            r is Err <==> status != NOT_FOUND && !is_success_status(status),
    {
        if status == NOT_FOUND {
            return Ok(false);
        }
        if !is_success(status) {
            let text = http_status_text(status);
            return Err(SessionError::CouchDb(concat("Failed to get session: ", text.as_str())));
        }
        Ok(true)
    }

    /// Whether the lookup that precedes a deletion, answered with `status`,
    /// found a document: anything but 404 counts as found.
    pub fn document_found(status: u16) -> (r: bool)
        ensures
            r == (status != NOT_FOUND),
    {
        status != NOT_FOUND
    }

    /// Read the answer to a document write: success, or a `CouchDb` error
    /// carrying the response body `body`.
    pub fn save_result(status: u16, body: &str) -> (r: SessionResult<()>)
        ensures
            r is Ok <==> is_success_status(status),
            r matches Err(e) ==> e matches SessionError::CouchDb(m)
                && m@ == "Failed to save session: "@ + body@,
    {
        if !is_success(status) {
            return Err(SessionError::CouchDb(concat("Failed to save session: ", body)));
        }
        Ok(())
    }

    /// `url` with the revision `rev` as its query: `{url}?rev={rev}`.
    pub fn revision_url(url: &str, rev: &str) -> (r: String)
        ensures
            r@ == url@ + "?rev="@ + rev@,
    {
        let a = concat(url, "?rev=");
        concat(a.as_str(), rev)
    }

    /// Read the answer to a document deletion: success, also when the
    /// document was already gone (404); a `CouchDb` error otherwise.
    pub fn delete_result(status: u16) -> (r: SessionResult<()>)
        requires
            100 <= status <= 999,
        ensures
            r is Ok <==> is_success_status(status) || status == NOT_FOUND,
            r matches Err(e) ==> couchdb_failure(e, "Failed to delete session: "@, status),
    {
        if !is_success(status) && status != NOT_FOUND {
            let text = http_status_text(status);
            return Err(SessionError::CouchDb(concat("Failed to delete session: ", text.as_str())));
        }
        Ok(())
    }

    /// The URL listing the documents of this namespace (keys from
    /// `{namespace}:` to `{namespace}:\ufff0`), with their bodies when
    /// `include_docs` holds.
    pub fn all_docs_url(&self, include_docs: bool) -> (r: String)
        ensures
            r@ == self.spec_base_url() + "/_all_docs?startkey=\""@ + self.spec_config().namespace@
                + ":\"&endkey=\""@ + self.spec_config().namespace@ + ":\\ufff0\""@ + (if include_docs {
                "&include_docs=true"@
            } else {
                ""@
            }),
    {
        let ns = self.config.namespace.as_str();
        let a = concat(self.base_url.as_str(), "/_all_docs?startkey=\"");
        let b = concat(a.as_str(), ns);
        let c = concat(b.as_str(), ":\"&endkey=\"");
        let d = concat(c.as_str(), ns);
        let e = concat(d.as_str(), ":\\ufff0\"");
        if include_docs {
            concat(e.as_str(), "&include_docs=true")
        } else {
            concat(e.as_str(), "")
        }
    }

    /// Read the status of the namespace listing that precedes clearing it.
    pub fn list_result(status: u16) -> (r: SessionResult<()>)
        requires
            100 <= status <= 999,
        ensures
            r is Ok <==> is_success_status(status),
            r matches Err(e) ==> couchdb_failure(e, "Failed to list sessions: "@, status),
    {
        if !is_success(status) {
            let text = http_status_text(status);
            return Err(SessionError::CouchDb(concat("Failed to list sessions: ", text.as_str())));
        }
        Ok(())
    }

    /// Read the status of the namespace listing that counts its sessions.
    pub fn count_result(status: u16) -> (r: SessionResult<()>)
        requires
            100 <= status <= 999,
        ensures
            r is Ok <==> is_success_status(status),
            r matches Err(e) ==> couchdb_failure(e, "Failed to count sessions: "@, status),
    {
        if !is_success(status) {
            let text = http_status_text(status);
            return Err(SessionError::CouchDb(concat("Failed to count sessions: ", text.as_str())));
        }
        Ok(())
    }

    /// The URL of the `by_expiration` view listing, with their bodies, the
    /// sessions that expire at or before `now`.
    pub fn expired_view_url_at(&self, now: Timestamp) -> (r: String)
        ensures
            r@ == self.spec_base_url() + "/_design/sessions/_view/by_expiration?endkey=\""@
                + rfc3339_text(now@) + "\"&include_docs=true"@,
    {
        let now_text = now.to_rfc3339();
        let a = concat(self.base_url.as_str(), "/_design/sessions/_view/by_expiration?endkey=\"");
        let b = concat(a.as_str(), now_text.as_str());
        concat(b.as_str(), "\"&include_docs=true")
    }

    /// The URL of the `by_expiration` view listing the sessions that have
    /// expired by now.
    pub fn expired_view_url(&self) -> (r: String)
        ensures
            exists|now: Timestamp| is_clock_reading(now) && r@ == self.spec_base_url()
                + "/_design/sessions/_view/by_expiration?endkey=\""@ + #[trigger] rfc3339_text(now@)
                + "\"&include_docs=true"@,
    {
        self.expired_view_url_at(now_utc())
    }

    /// Read the status of the query for expired sessions: `Ok(true)` when
    /// the rows came back, `Ok(false)` when the view does not exist (404),
    /// and a `CouchDb` error otherwise.
    pub fn cleanup_result(status: u16) -> (r: SessionResult<bool>)
        requires
            100 <= status <= 999,
        ensures
            r == Ok::<bool, SessionError>(true) <==> is_success_status(status),
            r == Ok::<bool, SessionError>(false) <==> status == NOT_FOUND,
            r matches Err(e) ==> couchdb_failure(e, "Failed to query expired sessions: "@, status),
            r is Err <==> status != NOT_FOUND && !is_success_status(status),
    {
        if status == NOT_FOUND {
            return Ok(false);
        }
        if !is_success(status) {
            let text = http_status_text(status);
            return Err(
                SessionError::CouchDb(concat("Failed to query expired sessions: ", text.as_str())),
            );
        }
        Ok(true)
    }

    /// The deletion URLs of the expired sessions that `rows` lists: one for
    /// each row that carries a document (`(id, rev)`) with a revision.
    pub fn expired_deletions(&self, rows: &Vec<Option<(String, Option<String>)>>) -> (r: Vec<String>)
        ensures
            texts(r@) == deletion_targets(self.spec_base_url(), rows@),
    {
        let mut out: Vec<String> = Vec::new();
        let mut i: usize = 0;
        while i < rows.len()
            invariant
                i <= rows@.len(),
                texts(out@) == deletion_targets(self.spec_base_url(), rows@.subrange(0, i as int)),
            decreases rows@.len() - i,
        {
            proof {
                assert(rows@.subrange(0, i + 1).drop_last() =~= rows@.subrange(0, i as int));
            }
            match &rows[i] {
                Some((id, Some(rev))) => {
                    let url = self.document_revision_url(id.as_str(), rev.as_str());
                    out.push(url);
                    proof {
                        assert(texts(out@) =~= texts(out@.drop_last()).push(url@));
                    }
                },
                _ => {},
            }
            i = i + 1;
        }
        proof {
            assert(rows@.subrange(0, rows@.len() as int) =~= rows@);
        }
        out
    }

    /// How many of the deletions succeeded: the number of `true` entries
    /// of `sent`.
    pub fn count_deleted(sent: &Vec<bool>) -> (r: usize)
        ensures
            r == count_true(sent@),
            r <= sent@.len(),
    {
        let mut n: usize = 0;
        let mut i: usize = 0;
        while i < sent.len()
            invariant
                i <= sent@.len(),
                n == count_true(sent@.subrange(0, i as int)),
                n <= i,
            decreases sent@.len() - i,
        {
            proof {
                assert(sent@.subrange(0, i + 1).drop_last() =~= sent@.subrange(0, i as int));
            }
            if sent[i] {
                n = n + 1;
            }
            i = i + 1;
        }
        proof {
            assert(sent@.subrange(0, sent@.len() as int) =~= sent@);
        }
        n
    }

    /// The number of active sessions among the rows of the namespace
    /// listing, when the clock reads `now`: each row is a document ID and,
    /// when its body is a session, that session. A row counts when its ID
    /// begins with `{namespace}:` and its session has not expired at `now`.
    pub fn count_active_at(&self, rows: &Vec<(String, Option<Session>)>, now: Timestamp) -> (r: usize)
        ensures
            r == active_sessions(self.spec_config().namespace@ + ":"@, rows@, now),
    {
        let prefix = concat(self.config.namespace.as_str(), ":");
        let mut n: usize = 0;
        let mut i: usize = 0;
        while i < rows.len()
            invariant
                i <= rows@.len(),
                prefix@ == self.spec_config().namespace@ + ":"@,
                n == active_sessions(prefix@, rows@.subrange(0, i as int), now),
                n <= i,
            decreases rows@.len() - i,
        {
            proof {
                assert(rows@.subrange(0, i + 1).drop_last() =~= rows@.subrange(0, i as int));
            }
            let (id, doc) = &rows[i];
            let in_namespace = starts_with(id.as_str(), prefix.as_str());
            let live = match doc {
                Some(session) => !session.is_expired_at(now),
                None => false,
            };
            if in_namespace && live {
                n = n + 1;
            }
            i = i + 1;
        }
        proof {
            assert(rows@.subrange(0, rows@.len() as int) =~= rows@);
        }
        n
    }

    /// The number of sessions among the rows of the namespace listing that
    /// are active now.
    pub fn count_active(&self, rows: &Vec<(String, Option<Session>)>) -> (r: usize)
        ensures
            exists|now: Timestamp|
                is_clock_reading(now) && r == #[trigger] active_sessions(
                    self.spec_config().namespace@ + ":"@,
                    rows@,
                    now,
                ),
    {
        let now = now_utc();
        self.count_active_at(rows, now)
    }

    /// The deletion URL of each listed document `(id, rev)`, one per row and
    /// in order, for clearing the namespace.
    pub fn clear_targets(&self, rows: &Vec<(String, String)>) -> (r: Vec<String>)
        ensures
            texts(r@) == clearing_targets(self.spec_base_url(), rows@),
    {
        let mut out: Vec<String> = Vec::new();
        let mut i: usize = 0;
        while i < rows.len()
            invariant
                i <= rows@.len(),
                texts(out@) == clearing_targets(self.spec_base_url(), rows@.subrange(0, i as int)),
            decreases rows@.len() - i,
        {
            let url = self.document_revision_url(rows[i].0.as_str(), rows[i].1.as_str());
            let ghost before = out@;
            proof {
                assert(texts(before).len() == before.len());
                assert(clearing_targets(self.spec_base_url(), rows@.subrange(0, i as int)).len() == i);
            }
            out.push(url);
            proof {
                let base = self.spec_base_url();
                let now_rows = rows@.subrange(0, i + 1);
                let was_rows = rows@.subrange(0, i as int);
                assert forall|j: int| 0 <= j < i + 1 implies #[trigger] texts(out@)[j]
                    == clearing_targets(base, now_rows)[j] by {
                    if j < i {
                        assert(out@[j] == before[j]);
                        assert(texts(before)[j] == clearing_targets(base, was_rows)[j]);
                        assert(now_rows[j] == was_rows[j]);
                    }
                }
                assert(texts(out@) =~= clearing_targets(base, now_rows));
            }
            i = i + 1;
        }
        proof {
            assert(rows@.subrange(0, rows@.len() as int) =~= rows@);
        }
        out
    }

    /// The URL that deletes revision `rev` of document `id`:
    /// `{database}/{id}?rev={rev}`.
    pub fn document_revision_url(&self, id: &str, rev: &str) -> (r: String)
        ensures
            r@ == self.spec_base_url() + "/"@ + id@ + "?rev="@ + rev@,
    {
        let a = concat(self.base_url.as_str(), "/");
        let b = concat(a.as_str(), id);
        Self::revision_url(b.as_str(), rev)
    }
}

} // verus!
