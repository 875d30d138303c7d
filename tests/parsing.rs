use live_chat_relay::author::{classify_label, parse_author, path_segment, BadgeRole};
use live_chat_relay::json::Json;
use live_chat_relay::message::{parse_amount, parse_paid_message, parse_timestamp};
use live_chat_relay::model::{Amount, MessageKind};
use live_chat_relay::response::{parse_chat_response, parse_item, FetchError, ParsedItem};
use live_chat_relay::runs::{join_text, parse_message_runs};

fn doc(text: &str) -> Json {
    Json::parse(text).expect("test document is valid JSON")
}

const AVATAR: &str = "https://yt4.ggpht.com/ytc/UCabc123/photo.jpg";

fn text_item(id: &str, usec: &str, badges: &str) -> String {
    format!(
        r#"{{"liveChatTextMessageRenderer": {{
            "id": "{id}", "timestampUsec": "{usec}",
            "authorName": {{"simpleText": "Alice"}},
            "authorPhoto": {{"thumbnails": [{{"url": "{AVATAR}"}}]}},
            "authorBadges": {badges},
            "message": {{"runs": [{{"text": "hi "}}, {{"emoji": {{"emojiId": "e1", "shortcuts": [":wave:"], "image": {{"thumbnails": [{{"url": "http://e/1.png"}}]}}}}}}, {{"text": "there"}}]}}
        }}}}"#
    )
}

fn message_of(p: ParsedItem) -> live_chat_relay::model::ChatMessage {
    match p {
        ParsedItem::Message(m) => m,
        other => panic!("expected a message, got {:?}", other),
    }
}

#[test]
fn plain_text_joins_text_runs_in_order() {
    let runs = doc(r#"[{"text": "a"}, {"emoji": {"emojiId": "x"}}, {"text": "b"}, {"other": 1}, {"text": "c"}]"#);
    let parsed = parse_message_runs(Some(&runs));
    assert_eq!(parsed.len(), 4);
    assert_eq!(join_text(&parsed), "abc");
}

#[test]
fn runs_hold_exactly_one_of_text_and_emoji() {
    let runs = doc(r#"[{"text": "a"}, {"emoji": {"emojiId": "x", "shortcuts": [":x:", ":y:"], "image": {"thumbnails": [{"url": "u"}]}}}, {"text": 5, "emoji": {}}]"#);
    let parsed = parse_message_runs(Some(&runs));
    assert_eq!(parsed.len(), 3);
    for r in &parsed {
        assert!(r.text.is_some() != r.emoji.is_some());
    }
    let e = parsed[1].emoji.as_ref().unwrap();
    assert_eq!(e.id, "x");
    assert_eq!(e.txt, ":x:");
    assert_eq!(e.url, "u");
    let missing = parsed[2].emoji.as_ref().unwrap();
    assert_eq!(missing.id, "");
    assert_eq!(missing.txt, "");
    assert_eq!(missing.url, "");
}

#[test]
fn runs_of_a_non_list_are_empty() {
    assert!(parse_message_runs(None).is_empty());
    assert!(parse_message_runs(Some(&doc(r#"{"text": "a"}"#))).is_empty());
}

#[test]
fn text_message_is_normalized() {
    let item = doc(&text_item("m1", "1700000000000000", "[]"));
    let m = message_of(parse_item(Some(&item)));
    assert_eq!(m.message_type, MessageKind::Text);
    assert_eq!(m.message_type.name(), "textMessage");
    assert_eq!(m.id, "m1");
    assert_eq!(m.message, "hi there");
    assert_eq!(m.message_ex.as_ref().unwrap().len(), 3);
    assert_eq!(m.author.name, "Alice");
    assert_eq!(m.author.channel_id, "UCabc123");
    assert_eq!(m.author.channel_url, "https://www.youtube.com/channel/UCabc123");
    assert_eq!(m.author.image_url, AVATAR);
    assert!(m.amount_value.is_none());
    assert!(m.elapsed_time.is_none());
}

#[test]
fn timestamp_is_derived_from_microseconds() {
    let item = doc(&text_item("m1", "1700000000000000", "[]"));
    let m = message_of(parse_item(Some(&item)));
    assert_eq!(m.timestamp, 1700000000000);
    assert_eq!(m.datetime, "2023-11-14 22:13:20");
    let (ms, d) = parse_timestamp("1700000000123456").unwrap();
    assert_eq!(ms, 1700000000123);
    assert_eq!(d, "2023-11-14 22:13:20");
    assert_eq!(parse_timestamp("-1500").unwrap().0, -1);
    assert!(parse_timestamp("12x").is_none());
    assert!(parse_timestamp("").is_none());
}

#[test]
fn badges_set_independent_flags() {
    let badges = r#"[
        {"liveChatAuthorBadgeRenderer": {"icon": {"iconType": "CHECK"}, "accessibility": {"accessibilityData": {"label": "Verified"}}}},
        {"liveChatAuthorBadgeRenderer": {"icon": {"thumbnails": [{"url": "http://b/mod.png"}]}, "accessibility": {"accessibilityData": {"label": "Moderator"}}}}
    ]"#;
    let item = doc(&text_item("m2", "1700000000000000", badges));
    let a = message_of(parse_item(Some(&item))).author;
    assert!(a.is_verified);
    assert!(a.is_chat_moderator);
    assert!(!a.is_chat_owner);
    assert!(!a.is_chat_sponsor);
    assert_eq!(a.badge_url.as_deref(), Some("http://b/mod.png"));
}

#[test]
fn no_badges_leaves_all_flags_false() {
    let item = doc(&text_item("m3", "1700000000000000", "[]"));
    let a = message_of(parse_item(Some(&item))).author;
    assert!(!a.is_verified && !a.is_chat_owner && !a.is_chat_sponsor && !a.is_chat_moderator);
    assert!(a.badge_url.is_none());
}

#[test]
fn badge_labels_are_matched_case_insensitively_and_in_japanese() {
    assert_eq!(classify_label("verified"), Some(BadgeRole::Verified));
    assert_eq!(classify_label("new member (2 months)"), Some(BadgeRole::Sponsor));
    assert_eq!(classify_label("所有者"), Some(BadgeRole::Owner));
    assert_eq!(classify_label("モデレーター"), Some(BadgeRole::Moderator));
    assert_eq!(classify_label("nothing"), None);
    let badges = r#"[{"liveChatAuthorBadgeRenderer": {"customThumbnail": {"thumbnails": [{"url": "http://b/m.png"}]}, "accessibility": {"accessibilityData": {"label": "OWNER"}}}}]"#;
    let a = parse_author(
        Some(&doc(r#"{"simpleText": "Bob"}"#)),
        Some(&doc(&format!(r#"{{"thumbnails": [{{"url": "{AVATAR}"}}]}}"#))),
        Some(&doc(badges)),
    )
    .unwrap();
    assert!(a.is_chat_owner);
    assert_eq!(a.badge_url.as_deref(), Some("http://b/m.png"));
}

#[test]
fn author_without_channel_segment_drops_the_message() {
    let raw = text_item("m4", "1700000000000000", "[]").replace(AVATAR, "https://short/url");
    assert!(matches!(parse_item(Some(&doc(&raw))), ParsedItem::Skipped));
    assert_eq!(path_segment("a/b/c/d/e/f", 4).as_deref(), Some("e"));
    assert_eq!(path_segment("a/b/c/d/", 4).as_deref(), Some(""));
    assert_eq!(path_segment("a/b/c/d", 4), None);
}

#[test]
fn missing_id_or_timestamp_drops_the_message() {
    let raw = text_item("m5", "not-a-number", "[]");
    assert!(matches!(parse_item(Some(&doc(&raw))), ParsedItem::Skipped));
}

#[test]
fn amount_text_is_read_exactly() {
    assert_eq!(parse_amount("$1,234.56"), Some(Amount { units: 123456, scale: 2 }));
    assert_eq!(parse_amount("¥500"), Some(Amount { units: 500, scale: 0 }));
    assert_eq!(parse_amount("abc"), None);
    assert_eq!(parse_amount("$1.2.3"), None);
    assert_eq!(parse_amount("12 USD"), None);
    assert_eq!(parse_amount("99999999999999999999"), None);
}

#[test]
fn paid_message_keeps_amount_text_and_color() {
    let r = doc(&format!(
        r#"{{"id": "paid-a", "timestampUsec": "1700000000000000",
            "authorName": {{"simpleText": "Carol"}},
            "authorPhoto": {{"thumbnails": [{{"url": "{AVATAR}"}}]}},
            "purchaseAmountText": {{"simpleText": "$1,234.56"}},
            "currency": "USD", "headerBackgroundColor": 4294947584}}"#
    ));
    let m = parse_paid_message(&r, MessageKind::SuperChat).unwrap();
    assert_eq!(m.amount_string.as_deref(), Some("$1,234.56"));
    assert_eq!(m.amount_value, Some(Amount { units: 123456, scale: 2 }));
    assert_eq!(m.currency.as_deref(), Some("USD"));
    assert_eq!(m.bg_color, Some(4294947584u32));
    assert_eq!(m.message, "");
    assert!(m.message_ex.as_ref().unwrap().is_empty());

    let bad = doc(&format!(
        r#"{{"id": "paid-b", "timestampUsec": "1700000000000000",
            "authorName": {{"simpleText": "Carol"}},
            "authorPhoto": {{"thumbnails": [{{"url": "{AVATAR}"}}]}},
            "purchaseAmountText": {{"simpleText": "free"}}, "headerBackgroundColor": 4294967297}}"#
    ));
    let m = parse_paid_message(&bad, MessageKind::SuperSticker).unwrap();
    assert_eq!(m.amount_string.as_deref(), Some("free"));
    assert_eq!(m.amount_value, None);
    assert_eq!(m.bg_color, Some(1));
    assert_eq!(m.message_type.name(), "superSticker");
}

#[test]
fn every_kind_is_dispatched_by_its_key() {
    let authored = format!(
        r#""id": "k", "timestampUsec": "1000", "authorName": {{"simpleText": "A"}}, "authorPhoto": {{"thumbnails": [{{"url": "{AVATAR}"}}]}}"#
    );
    let cases = [
        ("liveChatPaidMessageRenderer", MessageKind::SuperChat),
        ("liveChatPaidStickerRenderer", MessageKind::SuperSticker),
        ("liveChatMembershipItemRenderer", MessageKind::NewMembership),
    ];
    for (key, kind) in cases {
        let item = doc(&format!(r#"{{"{key}": {{{authored}}}}}"#));
        assert_eq!(message_of(parse_item(Some(&item))).message_type, kind);
    }
    let member = doc(&format!(
        r#"{{"liveChatMembershipItemRenderer": {{{authored}, "headerSubtext": {{"runs": [{{"text": "Welcome"}}]}}}}}}"#
    ));
    let m = message_of(parse_item(Some(&member)));
    assert_eq!(m.message, "Welcome");
    assert_eq!(m.message_type.name(), "newSponsor");
}

#[test]
fn engagement_banner_has_the_empty_author() {
    let item = doc(r#"{"liveChatViewerEngagementMessageRenderer": {"id": "v", "timestampUsec": "1700000000000000", "message": {"runs": [{"text": "Be kind"}]}}}"#);
    let m = message_of(parse_item(Some(&item)));
    assert_eq!(m.message_type, MessageKind::ViewerEngagement);
    assert_eq!(m.message, "Be kind");
    assert_eq!(m.author.name, "");
    assert_eq!(m.author.channel_id, "");
    assert!(m.author.badge_url.is_none());
    assert!(!m.author.is_verified);
}

#[test]
fn unknown_and_placeholder_items_give_nothing() {
    assert!(matches!(parse_item(Some(&doc(r#"{"somethingNew": {}}"#))), ParsedItem::Unsupported));
    assert!(matches!(parse_item(None), ParsedItem::Unsupported));
    assert!(matches!(
        parse_item(Some(&doc(r#"{"liveChatPlaceholderItemRenderer": {"id": "x"}}"#))),
        ParsedItem::Skipped
    ));
}

fn response(actions: &str, continuations: &str) -> Json {
    doc(&format!(
        r#"{{"continuationContents": {{"liveChatContinuation": {{"actions": {actions}, "continuations": {continuations}}}}}}}"#
    ))
}

#[test]
fn response_keeps_order_and_reads_the_next_cursor() {
    let actions = format!(
        "[{{\"addChatItemAction\": {{\"item\": {}}}}}, {{\"addChatItemAction\": {{\"item\": {{\"unknownRenderer\": {{}}}}}}}}, {{\"otherAction\": {{}}}}, {{\"addChatItemAction\": {{\"item\": {}}}}}]",
        text_item("first", "1000", "[]"),
        text_item("second", "2000", "[]")
    );
    let resp = response(&actions, r#"[{"foo": {}}, {"invalidationContinuationData": {"continuation": "NEXT", "timeoutMs": 5000}}, {"timedContinuationData": {"continuation": "LATER", "timeoutMs": 1}}]"#);
    let b = parse_chat_response(&resp).unwrap();
    assert_eq!(b.messages.len(), 2);
    assert_eq!(b.messages[0].id, "first");
    assert_eq!(b.messages[1].id, "second");
    assert_eq!(b.unsupported, vec![1]);
    assert_eq!(b.continuation, "NEXT");
    assert_eq!(b.timeout_ms, 5000);
}

#[test]
fn response_without_continuation_data_fails() {
    let resp = response("[]", r#"[{"playerSeekContinuationData": {"continuation": "X"}}]"#);
    assert_eq!(parse_chat_response(&resp).err(), Some(FetchError::MissingContinuation));
    let empty = response("[]", r#"[{"reloadContinuationData": {"timeoutMs": 10}}]"#);
    assert_eq!(parse_chat_response(&empty).err(), Some(FetchError::MissingContinuation));
    assert_eq!(parse_chat_response(&doc("{}")).err(), Some(FetchError::MissingContinuation));
}

#[test]
fn json_text_is_parsed_into_the_library_form() {
    let j = doc(r#"{"a": [1, -2, 1.5, null, true, "s"]}"#);
    let items = j.get("a").unwrap().as_array().unwrap();
    assert_eq!(items[0].as_u64(), Some(1));
    assert!(matches!(items[1], Json::OtherNumber));
    assert!(matches!(items[2], Json::OtherNumber));
    assert!(matches!(items[3], Json::Null));
    assert!(matches!(items[4], Json::Bool(true)));
    assert_eq!(items[5].as_str().map(|s| s.as_str()), Some("s"));
    assert!(Json::parse("{not json").is_none());
}
