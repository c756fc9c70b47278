//! The bot's side of the record collector and song-info servers: addresses, errors and the
//! version check.
use vstd::prelude::*;

use crate::models::song_title::opt_view;
use crate::models::versioning::{is_minor_or_more_outdated, outdated_spec};
use crate::text::{
    chars_of, copy_range, ends_with, ends_with_chars, string_of, trim, trimmed,
};
use crate::urls::{retry_delay_ms, retry_delay_spec, url_encode, url_encoded};

verus! {

/// A text without the characters `c` it ends with.
pub open spec fn strip_trailing(s: Seq<char>, c: char) -> Seq<char>
    decreases s.len(),
{
    if s.len() > 0 && s.last() == c {
        strip_trailing(s.drop_last(), c)
    } else {
        s
    }
}

fn strip_trailing_chars(v: &[char], c: char) -> (r: Vec<char>)
    ensures
        r@ == strip_trailing(v@, c),
{
    let mut n: usize = v.len();
    assert(v@.take(v.len() as int) =~= v@);
    while n > 0 && v[n - 1] == c
        invariant
            n <= v.len(),
            strip_trailing(v@, c) == strip_trailing(v@.take(n as int), c),
        decreases n,
    {
        assert(v@.take(n as int).drop_last() =~= v@.take(n - 1));
        n -= 1;
    }
    copy_range(v, 0, n)
}

/// The base path of a record collector: the path without trailing `/` (`/` when nothing is
/// left) and without a known endpoint at its end.
pub open spec fn collector_path(path: Seq<char>) -> Seq<char> {
    let t0 = strip_trailing(path, '/');
    let t = if t0.len() == 0 {
        "/"@
    } else {
        t0
    };
    if ends_with(t, "/health/ready"@) {
        let p = t.take(t.len() - 13);
        if p.len() == 0 {
            "/"@
        } else {
            p
        }
    } else if ends_with(t, "/api/player"@) {
        let p = t.take(t.len() - 11);
        if p.len() == 0 {
            "/"@
        } else {
            p
        }
    } else if ends_with(t, "/api/version"@) {
        let p = t.take(t.len() - 12);
        if p.len() == 0 {
            "/"@
        } else {
            p
        }
    } else {
        t
    }
}

fn strip_endpoint(t: &[char], suffix: &str) -> (r: Option<Vec<char>>)
    ensures
        match r {
            Some(p) => ends_with(t@, suffix@) && p@ == (if t@.len() == suffix@.len() {
                "/"@
            } else {
                t@.take(t@.len() - suffix@.len())
            }),
            None => !ends_with(t@, suffix@),
        },
{
    let s = chars_of(suffix);
    if !ends_with_chars(t, s.as_slice()) {
        return None;
    }
    let p = copy_range(t, 0, t.len() - s.len());
    assert(p@ =~= t@.take(t@.len() - suffix@.len()));
    if p.len() == 0 {
        proof {
            reveal_strlit("/");
        }
        return Some(chars_of("/"));
    }
    Some(p)
}

/// The base path of a record collector.
pub fn normalize_record_collector_path(path: &str) -> (r: String)
    ensures
        r@ == collector_path(path@),
{
    proof {
        reveal_strlit("/");
        reveal_strlit("/health/ready");
        reveal_strlit("/api/player");
        reveal_strlit("/api/version");
    }
    let t0 = strip_trailing_chars(chars_of(path).as_slice(), '/');
    let t = if t0.len() == 0 {
        chars_of("/")
    } else {
        t0
    };
    match strip_endpoint(t.as_slice(), "/health/ready") {
        Some(p) => {
            return string_of(p.as_slice());
        },
        None => {},
    }
    match strip_endpoint(t.as_slice(), "/api/player") {
        Some(p) => {
            return string_of(p.as_slice());
        },
        None => {},
    }
    match strip_endpoint(t.as_slice(), "/api/version") {
        Some(p) => {
            return string_of(p.as_slice());
        },
        None => {},
    }
    string_of(t.as_slice())
}

/// What `Url::parse` gives for a text: its scheme, whether it has a host, and its path.
pub uninterp spec fn url_parsed(s: Seq<char>) -> Option<(Seq<char>, bool, Seq<char>)>;

/// Calls `reqwest::Url::parse` and reads the scheme, the host and the path of the result.
/// Trusted: the three are a function of the text alone; what they are is left to the name
/// `url_parsed`.
#[verifier::external_body]
fn parse_url_parts(s: &str) -> (r: Option<(String, bool, String)>)
    ensures
        match r {
            Some((scheme, host, path)) => url_parsed(s@) == Some((scheme@, host, path@)),
            None => url_parsed(s@) is None,
        },
{
    match reqwest::Url::parse(s) {
        Ok(u) => Some((u.scheme().to_string(), u.host_str().is_some(), u.path().to_string())),
        Err(_) => None,
    }
}

/// What the address `s` becomes with its path set to `path` and its query and fragment
/// removed (`Url::set_path`, `set_query(None)`, `set_fragment(None)`).
pub uninterp spec fn url_with_path(s: Seq<char>, path: Seq<char>) -> Seq<char>;

/// Calls `reqwest::Url::parse`, then `set_path`, `set_query(None)` and `set_fragment(None)`,
/// and `as_str`. Trusted: the result is a function of the two texts alone, named by
/// `url_with_path`; the text must parse (the caller has checked it).
#[verifier::external_body]
fn rebase_url(s: &str, path: &str) -> (r: String)
    requires
        url_parsed(s@) is Some,
    ensures
        r@ == url_with_path(s@, path@),
{
    match reqwest::Url::parse(s) {
        Ok(mut u) => {
            u.set_path(path);
            u.set_query(None);
            u.set_fragment(None);
            u.as_str().to_string()
        },
        Err(_) => String::new(),
    }
}

/// Why a record collector address was refused.
#[derive(Debug, Clone, Copy, PartialEq, Eq, Structural)]
pub enum CollectorUrlError {
    Empty,
    Unparsable,
    UnsupportedScheme,
    MissingHost,
}

impl CollectorUrlError {
    /// The message shown to the player.
    pub open spec fn message_spec(self) -> Seq<char> {
        match self {
            CollectorUrlError::Empty => "Please provide a record collector server URL."@,
            CollectorUrlError::Unparsable => "parse record collector url"@,
            CollectorUrlError::UnsupportedScheme => "Record collector URL must use http or https."@,
            CollectorUrlError::MissingHost => "Record collector URL must include a host."@,
        }
    }

    /// The message shown to the player.
    pub fn message(&self) -> (r: &'static str)
        ensures
            r@ == self.message_spec(),
    {
        match self {
            CollectorUrlError::Empty => "Please provide a record collector server URL.",
            CollectorUrlError::Unparsable => "parse record collector url",
            CollectorUrlError::UnsupportedScheme => "Record collector URL must use http or https.",
            CollectorUrlError::MissingHost => "Record collector URL must include a host.",
        }
    }
}

/// The address of a record collector as the bot stores it: http(s) with a host, its path cut
/// to the base path of the collector, no query or fragment, and no trailing `/`.
pub open spec fn collector_url_spec(input: Seq<char>) -> Result<Seq<char>, CollectorUrlError> {
    let t = trim(input);
    if t.len() == 0 {
        Err(CollectorUrlError::Empty)
    } else {
        match url_parsed(t) {
            None => Err(CollectorUrlError::Unparsable),
            Some((scheme, host, path)) => if scheme != "http"@ && scheme != "https"@ {
                Err(CollectorUrlError::UnsupportedScheme)
            } else if !host {
                Err(CollectorUrlError::MissingHost)
            } else {
                Ok(strip_trailing(url_with_path(t, collector_path(path)), '/'))
            },
        }
    }
}

/// The address of a record collector as the bot stores it.
pub fn normalize_record_collector_url(input: &str) -> (r: Result<String, CollectorUrlError>)
    ensures
        match r {
            Ok(u) => collector_url_spec(input@) == Ok::<Seq<char>, CollectorUrlError>(u@),
            Err(e) => collector_url_spec(input@) == Err::<Seq<char>, CollectorUrlError>(e),
        },
{
    let tc = trimmed(input);
    if tc.len() == 0 {
        return Err(CollectorUrlError::Empty);
    }
    let t = string_of(tc.as_slice());
    let (scheme, host, path) = match parse_url_parts(t.as_str()) {
        Some(p) => p,
        None => {
            return Err(CollectorUrlError::Unparsable);
        },
    };
    let sc = chars_of(scheme.as_str());
    if !crate::text::eq_lit(sc.as_slice(), "http") && !crate::text::eq_lit(sc.as_slice(), "https") {
        return Err(CollectorUrlError::UnsupportedScheme);
    }
    if !host {
        return Err(CollectorUrlError::MissingHost);
    }
    let base = normalize_record_collector_path(path.as_str());
    let rebased = rebase_url(t.as_str(), base.as_str());
    let out = strip_trailing_chars(chars_of(rebased.as_str()).as_slice(), '/');
    Ok(string_of(out.as_slice()))
}

/// Why the version of a record collector does not fit the bot.
#[derive(Debug, Clone, Copy, PartialEq, Eq, Structural)]
pub enum RecordCollectorVersionIssue {
    VersionMismatch,
    InvalidResponse,
    Unreachable,
}

/// The version of a record collector and whether it fits the bot.
#[derive(Debug, Clone)]
pub struct RecordCollectorVersionStatus {
    collector_version: Option<String>,
    issue: Option<RecordCollectorVersionIssue>,
}

impl RecordCollectorVersionStatus {
    pub closed spec fn version_view(self) -> Option<Seq<char>> {
        opt_view(self.collector_version)
    }

    pub closed spec fn issue_view(self) -> Option<RecordCollectorVersionIssue> {
        self.issue
    }

    /// A collector whose version fits.
    pub fn compatible(collector_version: String) -> (r: Self)
        ensures
            r.version_view() == Some(collector_version@),
            r.issue_view() is None,
    {
        RecordCollectorVersionStatus { collector_version: Some(collector_version), issue: None }
    }

    /// A collector whose version does not fit, or could not be read.
    pub fn outdated(collector_version: Option<String>, issue: RecordCollectorVersionIssue) -> (r: Self)
        ensures
            r.version_view() == opt_view(collector_version),
            r.issue_view() == Some(issue),
    {
        RecordCollectorVersionStatus { collector_version, issue: Some(issue) }
    }

    pub fn collector_version(&self) -> (r: Option<&str>)
        ensures
            match r {
                Some(s) => self.version_view() == Some(s@),
                None => self.version_view() is None,
            },
    {
        match &self.collector_version {
            Some(v) => Some(v.as_str()),
            None => None,
        }
    }

    pub fn issue(&self) -> (r: Option<RecordCollectorVersionIssue>)
        ensures
            r == self.issue_view(),
    {
        self.issue
    }
}

/// The status of a collector from the version it reported (`None` when it could not be
/// reached): outdated when it is a minor version or more behind the bot, invalid when its
/// version or the bot's cannot be read.
pub fn version_status_from_response(bot_version: &str, collector_version: Option<String>) -> (r:
    RecordCollectorVersionStatus)
    ensures
        match collector_version {
            None => r.version_view() is None && r.issue_view() == Some(
                RecordCollectorVersionIssue::Unreachable,
            ),
            Some(v) => r.version_view() == Some(v@) && r.issue_view() == match outdated_spec(
                bot_version@,
                v@,
            ) {
                Ok(true) => Some(RecordCollectorVersionIssue::VersionMismatch),
                Ok(false) => None,
                Err(_) => Some(RecordCollectorVersionIssue::InvalidResponse),
            },
        },
{
    match collector_version {
        None => RecordCollectorVersionStatus::outdated(None, RecordCollectorVersionIssue::Unreachable),
        Some(v) => match is_minor_or_more_outdated(bot_version, v.as_str()) {
            Ok(true) => RecordCollectorVersionStatus::outdated(
                Some(v),
                RecordCollectorVersionIssue::VersionMismatch,
            ),
            Ok(false) => RecordCollectorVersionStatus::compatible(v),
            Err(_) => RecordCollectorVersionStatus::outdated(
                Some(v),
                RecordCollectorVersionIssue::InvalidResponse,
            ),
        },
    }
}

/// The error body of a record collector.
#[derive(Debug, Clone)]
pub struct RecordCollectorErrorResponse {
    pub message: String,
    pub code: String,
    pub maintenance: Option<bool>,
}

/// A failed request to a record collector: its HTTP status, error code and message.
#[derive(Debug, Clone)]
pub struct ApiError {
    status: u16,
    code: String,
    message: String,
}

impl ApiError {
    pub closed spec fn status_view(self) -> u16 {
        self.status
    }

    pub closed spec fn code_view(self) -> Seq<char> {
        self.code@
    }

    pub closed spec fn message_view(self) -> Seq<char> {
        self.message@
    }

    /// An error that the collector described.
    pub fn from_record_collector(status: u16, error: RecordCollectorErrorResponse) -> (r: Self)
        ensures
            r.status_view() == status,
            r.code_view() == error.code@,
            r.message_view() == error.message@,
    {
        ApiError { status, code: error.code, message: error.message }
    }

    /// An error with a body that is not an error description.
    pub fn from_http_text(status: u16, body: &str) -> (r: Self)
        ensures
            r.status_view() == status,
            r.code_view() == "HTTP_ERROR"@,
            r.message_view() == trim(body@),
    {
        proof {
            reveal_strlit("HTTP_ERROR");
        }
        ApiError {
            status,
            code: String::from_str("HTTP_ERROR"),
            message: string_of(trimmed(body).as_slice()),
        }
    }

    pub fn code(&self) -> (r: &str)
        ensures
            r@ == self.code_view(),
    {
        self.code.as_str()
    }

    pub fn message(&self) -> (r: &str)
        ensures
            r@ == self.message_view(),
    {
        self.message.as_str()
    }

    pub fn status(&self) -> (r: u16)
        ensures
            r == self.status_view(),
    {
        self.status
    }
}

/// The address of a cover image on the song-info server.
pub fn cover_url(base_url: &str, image_name: &str) -> (r: String)
    ensures
        r@ == base_url@ + "/cover/"@ + url_encoded(image_name@),
{
    let mut s = String::from_str(base_url);
    s.push_str("/cover/");
    s.push_str(url_encode(image_name).as_str());
    s
}

/// What one request to the record collector gave: a success status, another status, or no
/// connection.
#[derive(Debug, Clone, Copy, PartialEq, Eq, Structural)]
pub enum CollectorAttempt {
    Succeeded,
    FailedStatus,
    FailedConnection,
}

/// What to do after a request: read the body, wait and send it again, or report the failed
/// status (from the error body) or the failed connection.
#[derive(Debug, Clone, Copy, PartialEq, Eq, Structural)]
pub enum CollectorStep {
    Decode,
    RetryAfterMs(u64),
    ReportStatus,
    ReportConnection,
}

/// What to do after try `attempt` (counted from 0) of a request: three tries in all, with
/// 100 ms and then 200 ms between them.
pub open spec fn collector_step_spec(attempt: u32, outcome: CollectorAttempt) -> CollectorStep {
    match outcome {
        CollectorAttempt::Succeeded => CollectorStep::Decode,
        _ => match retry_delay_spec(attempt, 3, 100) {
            Some(d) => CollectorStep::RetryAfterMs(d as u64),
            None => if outcome == CollectorAttempt::FailedStatus {
                CollectorStep::ReportStatus
            } else {
                CollectorStep::ReportConnection
            },
        },
    }
}

/// What to do after a request to the record collector (see above).
pub fn collector_request_step(attempt: u32, outcome: CollectorAttempt) -> (r: CollectorStep)
    ensures
        r == collector_step_spec(attempt, outcome),
{
    if outcome == CollectorAttempt::Succeeded {
        return CollectorStep::Decode;
    }
    if attempt < 2 {
        match retry_delay_ms(attempt, 3, 100) {
            Some(d) => {
                return CollectorStep::RetryAfterMs(d);
            },
            None => {},
        }
    }
    if outcome == CollectorAttempt::FailedStatus {
        CollectorStep::ReportStatus
    } else {
        CollectorStep::ReportConnection
    }
}

} // verus!
