use vstd::prelude::*;
use crate::author::opt_text;
use crate::json::{Json, element, idx_of, key_of, member, parsed_json, text, text_of};
use crate::service::SessionContext;

verus! {

/// Where the watch page assigns its initial data document.
pub const INITIAL_DATA_PATTERN: &'static str = "var ytInitialData = (\\{.*?});";

/// Where the watch page gives its API key.
pub const API_KEY_PATTERN: &'static str = "[\"']INNERTUBE_API_KEY[\"']\\s*:\\s*[\"']([^\"']+)[\"']";

/// Where the watch page gives its client version.
pub const CLIENT_VERSION_PATTERN: &'static str = "[\"']INNERTUBE_CONTEXT_CLIENT_VERSION[\"']\\s*:\\s*[\"']([^\"']+)[\"']";

/// The first capture group of the leftmost match of the regular expression
/// `pattern` in `text`; none where the pattern does not compile, nothing
/// matches, or the group took no part in the match.
pub uninterp spec fn regex_capture(pattern: Seq<char>, text: Seq<char>) -> Option<Seq<char>>;

/// Relies on the regex crate: Regex::new compiles the pattern, captures
/// finds the leftmost match, and group one of it is taken.
#[verifier::external_body]
fn first_capture(pattern: &str, text: &str) -> (r: Option<String>)
    ensures
        opt_text(r) == regex_capture(pattern@, text@),
{
    let re = regex::Regex::new(pattern).ok()?;
    let caps = re.captures(text)?;
    Some(caps.get(1)?.as_str().to_string())
}

/// Why a session could not be started.
#[derive(Debug, Clone, Copy, PartialEq, Eq, Structural)]
pub enum BootstrapError {
    /// The watch page could not be fetched.
    Transport,
    /// The page assigns no initial data document.
    MissingInitialData,
    /// The initial data is not a JSON document.
    InvalidInitialData,
    /// The initial data holds no live-chat cursor.
    MissingContinuation,
    /// The page gives no API key.
    MissingApiKey,
    /// The page gives no client version.
    MissingClientVersion,
}

/// The reload cursor of the first live-chat continuation in the initial data.
pub open spec fn initial_continuation_of(data: Json) -> Option<Seq<char>> {
    let chat = key_of(
        key_of(key_of(key_of(Some(data), "contents"@), "twoColumnWatchNextResults"@), "conversationBar"@),
        "liveChatRenderer"@,
    );
    text_of(
        key_of(key_of(idx_of(key_of(chat, "continuations"@), 0), "reloadContinuationData"@), "continuation"@),
    )
}

/// Reads the live-chat cursor from the initial data document.
pub fn initial_continuation(data: &Json) -> (r: Option<String>)
    ensures
        opt_text(r) == initial_continuation_of(*data),
{
    let chat = member(
        member(member(member(Some(data), "contents"), "twoColumnWatchNextResults"), "conversationBar"),
        "liveChatRenderer",
    );
    text(member(member(element(member(chat, "continuations"), 0), "reloadContinuationData"), "continuation"))
}

/// The session that a watch page gives: its initial cursor, API key and
/// client version, each of which must be found; the first one missing is
/// the error.
pub open spec fn session_of(page: Seq<char>) -> Result<(Seq<char>, Seq<char>, Seq<char>), BootstrapError> {
    match regex_capture(INITIAL_DATA_PATTERN@, page) {
        None => Err(BootstrapError::MissingInitialData),
        Some(blob) => match parsed_json(blob) {
            None => Err(BootstrapError::InvalidInitialData),
            Some(data) => match initial_continuation_of(data) {
                None => Err(BootstrapError::MissingContinuation),
                Some(c) => match regex_capture(API_KEY_PATTERN@, page) {
                    None => Err(BootstrapError::MissingApiKey),
                    Some(k) => match regex_capture(CLIENT_VERSION_PATTERN@, page) {
                        None => Err(BootstrapError::MissingClientVersion),
                        Some(v) => Ok((c, k, v)),
                    },
                },
            },
        },
    }
}

/// Reads the session from the text of a watch page.
pub fn parse_initial_data(page: &str) -> (r: Result<SessionContext, BootstrapError>)
    ensures
        r matches Ok(s) ==> session_of(page@) == Ok::<(Seq<char>, Seq<char>, Seq<char>), BootstrapError>(
            (s.continuation@, s.api_key@, s.client_version@),
        ),
        r matches Err(e) ==> session_of(page@) == Err::<(Seq<char>, Seq<char>, Seq<char>), BootstrapError>(e),
{
    let blob = match first_capture(INITIAL_DATA_PATTERN, page) {
        Some(b) => b,
        None => return Err(BootstrapError::MissingInitialData),
    };
    let data = match Json::parse(blob.as_str()) {
        Some(d) => d,
        None => return Err(BootstrapError::InvalidInitialData),
    };
    let continuation = match initial_continuation(&data) {
        Some(c) => c,
        None => return Err(BootstrapError::MissingContinuation),
    };
    let api_key = match first_capture(API_KEY_PATTERN, page) {
        Some(k) => k,
        None => return Err(BootstrapError::MissingApiKey),
    };
    let client_version = match first_capture(CLIENT_VERSION_PATTERN, page) {
        Some(v) => v,
        None => return Err(BootstrapError::MissingClientVersion),
    };
    Ok(SessionContext { continuation, api_key, client_version })
}

} // verus!
