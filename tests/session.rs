use live_chat_relay::bootstrap::{initial_continuation, parse_initial_data, BootstrapError};
use live_chat_relay::json::Json;
use live_chat_relay::model::{Author, ChatMessage, MessageKind, MessageRun};
use live_chat_relay::response::FetchError;
use live_chat_relay::service::{
    build_fetch_request, sleep_duration_ms, ChatService, SessionContext, StopReason,
};
use live_chat_relay::sink::{format_badges, format_log_message, tellraw_command};

const INITIAL: &str = r#"{"contents":{"twoColumnWatchNextResults":{"conversationBar":{"liveChatRenderer":{"continuations":[{"reloadContinuationData":{"continuation":"START"}}]}}}}}"#;

fn page(initial: &str, key: &str, version: &str) -> String {
    format!(
        "<script>var ytInitialData = {initial};</script><script>ytcfg.set({{{key}, {version}}})</script>"
    )
}

fn session() -> ChatService {
    ChatService::new(SessionContext {
        continuation: "C0".to_string(),
        api_key: "KEY".to_string(),
        client_version: "2.2024".to_string(),
    })
}

#[test]
fn bootstrap_reads_cursor_key_and_version() {
    let p = page(INITIAL, r#""INNERTUBE_API_KEY": "AIzaKEY""#, r#"'INNERTUBE_CONTEXT_CLIENT_VERSION':'2.20240101'"#);
    let s = parse_initial_data(&p).unwrap();
    assert_eq!(s.continuation, "START");
    assert_eq!(s.api_key, "AIzaKEY");
    assert_eq!(s.client_version, "2.20240101");
}

#[test]
fn bootstrap_reports_the_first_missing_part() {
    let key = r#""INNERTUBE_API_KEY":"K""#;
    let version = r#""INNERTUBE_CONTEXT_CLIENT_VERSION":"V""#;
    assert_eq!(parse_initial_data("<html></html>").err(), Some(BootstrapError::MissingInitialData));
    assert_eq!(
        parse_initial_data(&page("{bad json}", key, version)).err(),
        Some(BootstrapError::InvalidInitialData)
    );
    assert_eq!(
        parse_initial_data(&page(r#"{"contents":{}}"#, key, version)).err(),
        Some(BootstrapError::MissingContinuation)
    );
    assert_eq!(parse_initial_data(&page(INITIAL, "", version)).err(), Some(BootstrapError::MissingApiKey));
    assert_eq!(parse_initial_data(&page(INITIAL, key, "")).err(), Some(BootstrapError::MissingClientVersion));
}

#[test]
fn initial_cursor_is_read_from_its_path() {
    let j = Json::parse(INITIAL).unwrap();
    assert_eq!(initial_continuation(&j).as_deref(), Some("START"));
    assert_eq!(initial_continuation(&Json::parse("[]").unwrap()), None);
}

#[test]
fn fetch_request_carries_key_version_and_cursor() {
    let r = build_fetch_request("K1", "2.0", "cur\"sor");
    assert_eq!(r.url, "https://www.youtube.com/youtubei/v1/live_chat/get_live_chat?key=K1");
    assert_eq!(
        r.body,
        r#"{"context":{"client":{"clientName":"WEB","clientVersion":"2.0"}},"continuation":"cur\"sor"}"#
    );
}

#[test]
fn sleep_is_capped_at_two_seconds() {
    assert_eq!(sleep_duration_ms(10000), 2000);
    assert_eq!(sleep_duration_ms(500), 500);
    assert_eq!(sleep_duration_ms(2000), 2000);
    assert_eq!(sleep_duration_ms(0), 0);
}

#[test]
fn a_cycle_advances_the_cursor_and_caps_the_pause() {
    let mut s = session();
    let q = s.next_request().unwrap();
    assert!(q.body.contains("\"continuation\":\"C0\""));
    assert!(q.url.ends_with("key=KEY"));
    let answer = r#"{"continuationContents":{"liveChatContinuation":{"continuations":[{"timedContinuationData":{"continuation":"C1","timeoutMs":10000}}]}}}"#;
    let c = s.complete_text(Ok(answer)).unwrap();
    assert_eq!(c.sleep_ms, 2000);
    assert!(c.messages.is_empty());
    let q = s.next_request().unwrap();
    assert!(q.body.contains("\"continuation\":\"C1\""));
    let short = r#"{"continuationContents":{"liveChatContinuation":{"continuations":[{"timedContinuationData":{"continuation":"C2","timeoutMs":500}}]}}}"#;
    assert_eq!(s.complete_text(Ok(short)).unwrap().sleep_ms, 500);
    assert_eq!(s.stop_reason(), None);
}

#[test]
fn missing_continuation_ends_polling_for_good() {
    let mut s = session();
    assert!(s.next_request().is_some());
    let answer = r#"{"continuationContents":{"liveChatContinuation":{"actions":[],"continuations":[]}}}"#;
    let reason = StopReason::Failed(FetchError::MissingContinuation);
    assert_eq!(s.complete_text(Ok(answer)).err(), Some(reason));
    assert_eq!(s.stop_reason(), Some(reason));
    assert!(s.next_request().is_none());
    let good = r#"{"continuationContents":{"liveChatContinuation":{"continuations":[{"reloadContinuationData":{"continuation":"X"}}]}}}"#;
    assert_eq!(s.complete_text(Ok(good)).err(), Some(reason));
    assert!(s.next_request().is_none());
}

#[test]
fn undecodable_and_transport_failures_end_polling() {
    let mut s = session();
    assert_eq!(
        s.complete_text(Ok("<html>")).err(),
        Some(StopReason::Failed(FetchError::Undecodable))
    );
    assert!(s.next_request().is_none());
    let mut t = session();
    assert_eq!(
        t.complete_text(Err(FetchError::Transport)).err(),
        Some(StopReason::Failed(FetchError::Transport))
    );
    assert_eq!(t.stop_reason(), Some(StopReason::Failed(FetchError::Transport)));
}

fn sample(kind: MessageKind, flags: [bool; 4]) -> ChatMessage {
    let mut author = Author::empty();
    author.name = "Dana".to_string();
    author.is_verified = flags[0];
    author.is_chat_owner = flags[1];
    author.is_chat_sponsor = flags[2];
    author.is_chat_moderator = flags[3];
    ChatMessage {
        message_type: kind,
        id: "id".to_string(),
        message: "hello".to_string(),
        message_ex: Some(vec![MessageRun { text: Some("hello".to_string()), emoji: None }]),
        timestamp: 0,
        datetime: "1970-01-01 00:00:00".to_string(),
        elapsed_time: None,
        amount_value: None,
        amount_string: None,
        currency: None,
        bg_color: None,
        author,
    }
}

#[test]
fn log_line_shows_kind_author_badges_and_text() {
    let m = sample(MessageKind::Text, [true, false, true, true]);
    assert_eq!(format_log_message(&m, "2024-01-02 03:04:05"), "[2024-01-02 03:04:05] [textMessage] Dana✔💎🔧: hello");
    let plain = sample(MessageKind::SuperChat, [false; 4]);
    assert_eq!(format_log_message(&plain, "t"), "[t] [superChat] Dana: hello");
    assert_eq!(format_badges(&sample(MessageKind::Text, [true; 4]).author), "✔👑💎🔧");
}

#[test]
fn tellraw_command_escapes_quotes() {
    assert_eq!(tellraw_command(r#"say "hi""#), r#"tellraw @a { "text": "say \"hi\"" }"#);
    assert_eq!(tellraw_command(""), r#"tellraw @a { "text": "" }"#);
}

