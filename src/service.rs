use vstd::prelude::*;
use crate::json::{Json, parsed_json};
use crate::response::{
    ChatBatch, FetchError, actions_of, batch_prefix, continues, messages_view, next_continuation,
    parse_chat_response, unsupported_prefix,
};
use crate::model::{ChatMessage, ChatMessageView};

verus! {

/// What a session needs to poll: the cursor to start from, the API key and
/// the client version, as the watch page gives them.
#[derive(Debug)]
pub struct SessionContext {
    pub continuation: String,
    pub api_key: String,
    pub client_version: String,
}

/// Why polling ended.
#[derive(Debug, Clone, Copy, PartialEq, Eq, Structural)]
pub enum StopReason {
    /// There was no cursor to poll with: a normal end of the stream.
    TokenMissing,
    /// A poll failed.
    Failed(FetchError),
}

/// The longest pause between two polls, in milliseconds.
pub const MAX_WAIT_MS: u64 = 2000;

/// The pause before the next poll: the suggested wait, at most two seconds.
pub open spec fn delay_of(suggested_ms: u64) -> u64 {
    if suggested_ms < MAX_WAIT_MS {
        suggested_ms
    } else {
        MAX_WAIT_MS
    }
}

/// The pause between polls never exceeds two seconds, and a shorter
/// suggested wait is kept as it is.
pub proof fn lemma_sleep_cap(suggested_ms: u64)
    ensures
        delay_of(suggested_ms) <= MAX_WAIT_MS,
        suggested_ms <= MAX_WAIT_MS ==> delay_of(suggested_ms) == suggested_ms,
        suggested_ms >= MAX_WAIT_MS ==> delay_of(suggested_ms) == MAX_WAIT_MS,
{
}

/// The pause before the next poll, from the server's suggested wait.
pub fn sleep_duration_ms(suggested_ms: u64) -> (r: u64)
    ensures
        r == delay_of(suggested_ms),
{
    if suggested_ms < MAX_WAIT_MS {
        suggested_ms
    } else {
        MAX_WAIT_MS
    }
}

/// `s` as a JSON string literal, quoted and escaped.
pub uninterp spec fn json_string_literal(s: Seq<char>) -> Seq<char>;

/// Relies on serde_json's Display of Value::String: the text as a quoted and
/// escaped JSON string.
#[verifier::external_body]
fn quote_json(s: &str) -> (r: String)
    ensures
        r@ == json_string_literal(s@),
{
    serde_json::Value::String(s.to_string()).to_string()
}

/// The address of the live-chat fetch endpoint for an API key.
pub open spec fn fetch_url(api_key: Seq<char>) -> Seq<char> {
    "https://www.youtube.com/youtubei/v1/live_chat/get_live_chat?key="@ + api_key
}

/// The JSON body of a fetch: the web client with its version, and the cursor.
pub open spec fn fetch_body(client_version: Seq<char>, continuation: Seq<char>) -> Seq<char> {
    "{\"context\":{\"client\":{\"clientName\":\"WEB\",\"clientVersion\":"@ + json_string_literal(
        client_version,
    ) + "}},\"continuation\":"@ + json_string_literal(continuation) + "}"@
}

/// One fetch to make: where to post, and what.
#[derive(Debug)]
pub struct FetchRequest {
    pub url: String,
    pub body: String,
}

/// Builds the fetch for a cursor.
pub fn build_fetch_request(api_key: &str, client_version: &str, continuation: &str) -> (r:
    FetchRequest)
    ensures
        r.url@ == fetch_url(api_key@),
        r.body@ == fetch_body(client_version@, continuation@),
{
    let mut url = String::from_str("https://www.youtube.com/youtubei/v1/live_chat/get_live_chat?key=");
    url.append(api_key);
    let mut body = String::from_str("{\"context\":{\"client\":{\"clientName\":\"WEB\",\"clientVersion\":");
    let v = quote_json(client_version);
    body.append(v.as_str());
    body.append("}},\"continuation\":");
    let c = quote_json(continuation);
    body.append(c.as_str());
    body.append("}");
    FetchRequest { url, body }
}

/// What one completed poll hands on.
#[derive(Debug)]
pub struct Cycle {
    /// The messages, in the order of the feed.
    pub messages: Vec<ChatMessage>,
    /// The positions, among the actions, of the items of unknown kind.
    pub unsupported: Vec<usize>,
    /// The pause before the next poll.
    pub sleep_ms: u64,
}

/// The polling state: the cursor, the fixed key and version, and, once
/// polling has ended, why. The end is final.
#[derive(Debug)]
pub struct ChatService {
    continuation: Option<String>,
    api_key: String,
    client_version: String,
    stopped: Option<StopReason>,
}

pub struct ServiceView {
    pub continuation: Option<Seq<char>>,
    pub api_key: Seq<char>,
    pub client_version: Seq<char>,
    pub stopped: Option<StopReason>,
}

impl View for ChatService {
    type V = ServiceView;

    closed spec fn view(&self) -> ServiceView {
        ServiceView {
            continuation: match self.continuation {
                Some(c) => Some(c@),
                None => None,
            },
            api_key: self.api_key@,
            client_version: self.client_version@,
            stopped: self.stopped,
        }
    }
}

/// The fetch that the state calls for: none once polling has ended or
/// where there is no cursor.
pub open spec fn request_of(s: ServiceView) -> Option<(Seq<char>, Seq<char>)> {
    if s.stopped is None && s.continuation is Some {
        Some((fetch_url(s.api_key), fetch_body(s.client_version, s.continuation->0)))
    } else {
        None
    }
}

/// The state after asking for a fetch: a missing cursor ends polling.
pub open spec fn after_request(s: ServiceView) -> ServiceView {
    if s.stopped is None && s.continuation is None {
        ServiceView { stopped: Some(StopReason::TokenMissing), ..s }
    } else {
        s
    }
}

/// The next cursor that a fetch answer names.
pub open spec fn next_token(resp: Json) -> Seq<char> {
    let (token, _wait) = next_continuation(resp)->0;
    token
}

/// The wait that a fetch answer suggests.
pub open spec fn next_wait(resp: Json) -> u64 {
    let (_token, wait) = next_continuation(resp)->0;
    wait
}

/// The state after the answer to a fetch: a failed fetch, or an answer with
/// no next cursor, ends polling; otherwise the next cursor replaces the old.
pub open spec fn after_answer(s: ServiceView, answer: Result<Json, FetchError>) -> ServiceView {
    if s.stopped is Some {
        s
    } else {
        match answer {
            Err(e) => ServiceView { stopped: Some(StopReason::Failed(e)), ..s },
            Ok(resp) => if continues(resp) {
                ServiceView { continuation: Some(next_token(resp)), ..s }
            } else {
                ServiceView { stopped: Some(StopReason::Failed(FetchError::MissingContinuation)), ..s }
            },
        }
    }
}

/// Once polling has ended it stays ended: no fetch is called for, and
/// neither a request nor an answer changes the state.
pub open spec fn terminal(s: ServiceView) -> bool {
    &&& s.stopped is Some
    &&& request_of(s) is None
    &&& after_request(s) == s
    &&& forall|a: Result<Json, FetchError>| #[trigger] after_answer(s, a) == s
}

/// An answer that names no next cursor ends polling for good.
pub proof fn lemma_missing_continuation_ends(s: ServiceView, resp: Json)
    requires
        s.stopped is None,
        next_continuation(resp) is None,
    ensures
        after_answer(s, Ok(resp)).stopped == Some(StopReason::Failed(FetchError::MissingContinuation)),
        terminal(after_answer(s, Ok(resp))),
{
}

/// Every ended state is final.
pub proof fn lemma_stop_is_final(s: ServiceView)
    requires
        s.stopped is Some,
    ensures
        terminal(s),
{
}

impl ChatService {
    /// Starts polling from a freshly read session.
    pub fn new(ctx: SessionContext) -> (r: ChatService)
        ensures
            r@ == (ServiceView {
                continuation: Some(ctx.continuation@),
                api_key: ctx.api_key@,
                client_version: ctx.client_version@,
                stopped: None,
            }),
    {
        ChatService {
            continuation: Some(ctx.continuation),
            api_key: ctx.api_key,
            client_version: ctx.client_version,
            stopped: None,
        }
    }

    /// Why polling ended, once it has.
    pub fn stop_reason(&self) -> (r: Option<StopReason>)
        ensures
            r == self@.stopped,
    {
        self.stopped
    }

    /// The fetch to make next; none once polling has ended. A missing
    /// cursor ends polling here.
    pub fn next_request(&mut self) -> (r: Option<FetchRequest>)
        ensures
            final(self)@ == after_request(old(self)@),
            r matches Some(q) ==> request_of(old(self)@) == Some((q.url@, q.body@)),
            r is None ==> request_of(old(self)@) is None,
    {
        if self.stopped.is_some() {
            return None;
        }
        match &self.continuation {
            Some(c) => Some(build_fetch_request(self.api_key.as_str(), self.client_version.as_str(), c.as_str())),
            None => {
                self.stopped = Some(StopReason::TokenMissing);
                None
            },
        }
    }

    /// Takes the answer to a fetch: hands on its messages and the pause
    /// before the next poll, or ends polling and says why. Once polling has
    /// ended, answers change nothing and the reason is given again.
    pub fn complete(&mut self, answer: Result<&Json, FetchError>) -> (r: Result<Cycle, StopReason>)
        ensures
            final(self)@ == after_answer(
                old(self)@,
                match answer {
                    Ok(j) => Ok(*j),
                    Err(e) => Err(e),
                },
            ),
            old(self)@.stopped is Some ==> r == Err::<Cycle, StopReason>(old(self)@.stopped->0),
            r matches Err(e) ==> final(self)@.stopped == Some(e),
            r matches Ok(c) ==> answer matches Ok(resp) && {
                &&& old(self)@.stopped is None
                &&& messages_view(c.messages@) == batch_prefix(actions_of(*resp), actions_of(*resp).len() as int)
                &&& c.unsupported@ == unsupported_prefix(actions_of(*resp), actions_of(*resp).len() as int)
                &&& c.sleep_ms == delay_of(next_wait(*resp))
            },
    {
        if let Some(reason) = self.stopped {
            return Err(reason);
        }
        let resp = match answer {
            Ok(j) => j,
            Err(e) => {
                self.stopped = Some(StopReason::Failed(e));
                return Err(StopReason::Failed(e));
            },
        };
        match parse_chat_response(resp) {
            Ok(batch) => {
                let ChatBatch { messages, unsupported, continuation, timeout_ms } = batch;
                self.continuation = Some(continuation);
                Ok(Cycle { messages, unsupported, sleep_ms: sleep_duration_ms(timeout_ms) })
            },
            Err(e) => {
                self.stopped = Some(StopReason::Failed(e));
                Err(StopReason::Failed(e))
            },
        }
    }

    /// Takes the body of a fetch answer as text: an answer that is not a
    /// JSON document ends polling as undecodable; otherwise as `complete`.
    pub fn complete_text(&mut self, answer: Result<&str, FetchError>) -> (r: Result<Cycle, StopReason>)
        ensures
            old(self)@.stopped is Some ==> final(self)@ == old(self)@ && r == Err::<Cycle, StopReason>(old(self)@.stopped->0),
            old(self)@.stopped is None ==> match answer {
                Err(e) => final(self)@ == after_answer(old(self)@, Err(e)) && r == Err::<Cycle, StopReason>(StopReason::Failed(e)),
                Ok(t) => match parsed_json(t@) {
                    None => final(self)@ == after_answer(old(self)@, Err(FetchError::Undecodable))
                        && r == Err::<Cycle, StopReason>(StopReason::Failed(FetchError::Undecodable)),
                    Some(j) => final(self)@ == after_answer(old(self)@, Ok(j)),
                },
            },
            r matches Err(e) ==> final(self)@.stopped == Some(e),
    {
        match answer {
            Ok(t) => match Json::parse(t) {
                Some(j) => self.complete(Ok(&j)),
                None => self.complete(Err(FetchError::Undecodable)),
            },
            Err(e) => self.complete(Err(e)),
        }
    }
}

} // verus!
