use vstd::prelude::*;
use crate::json::{Json, deref_opt, items_of, key_of, member, text_or_default, text_or_empty, uint, uint_of};
use crate::message::{
    authored_message_of, engagement_message_of, paid_message_of, parse_membership_message,
    parse_paid_message, parse_text_message, parse_viewer_engagement_message,
};
use crate::model::{ChatMessage, ChatMessageView, MessageKind, plain_text};
use crate::runs::{lemma_runs_well_shaped, runs_of};

verus! {

/// What reading one raw chat item gives.
#[derive(Debug)]
pub enum ParsedItem {
    /// A normalized message.
    Message(ChatMessage),
    /// A known kind that yields nothing: a placeholder, or an item that
    /// lacks a required field.
    Skipped,
    /// A kind that the reader does not know.
    Unsupported,
}

pub enum ParsedItemView {
    Message(ChatMessageView),
    Skipped,
    Unsupported,
}

impl View for ParsedItem {
    type V = ParsedItemView;

    open spec fn view(&self) -> ParsedItemView {
        match self {
            ParsedItem::Message(m) => ParsedItemView::Message(m@),
            ParsedItem::Skipped => ParsedItemView::Skipped,
            ParsedItem::Unsupported => ParsedItemView::Unsupported,
        }
    }
}

pub open spec fn message_or_skip(m: Option<ChatMessageView>) -> ParsedItemView {
    match m {
        Some(v) => ParsedItemView::Message(v),
        None => ParsedItemView::Skipped,
    }
}

/// `item` holds a renderer under `key`.
pub open spec fn holds_key(item: Option<Json>, key: Seq<char>) -> bool {
    key_of(item, key) is Some
}

/// The renderer under `key` of `item`.
pub open spec fn renderer(item: Option<Json>, key: Seq<char>) -> Json {
    key_of(item, key)->0
}

/// None of the six known renderer keys is present in `item`.
pub open spec fn unrecognized(item: Option<Json>) -> bool {
    !holds_key(item, "liveChatTextMessageRenderer"@) && !holds_key(item, "liveChatPaidMessageRenderer"@)
        && !holds_key(item, "liveChatPaidStickerRenderer"@) && !holds_key(item, "liveChatMembershipItemRenderer"@)
        && !holds_key(item, "liveChatViewerEngagementMessageRenderer"@) && !holds_key(
        item,
        "liveChatPlaceholderItemRenderer"@,
    )
}

/// What a raw chat item gives, dispatching on the first renderer key present
/// in the order text, paid message, paid sticker, membership, engagement,
/// placeholder.
pub open spec fn item_of(item: Option<Json>) -> ParsedItemView {
    if holds_key(item, "liveChatTextMessageRenderer"@) {
        message_or_skip(
            authored_message_of(
                renderer(item, "liveChatTextMessageRenderer"@),
                MessageKind::Text,
                "message"@,
            ),
        )
    } else if holds_key(item, "liveChatPaidMessageRenderer"@) {
        message_or_skip(
            paid_message_of(renderer(item, "liveChatPaidMessageRenderer"@), MessageKind::SuperChat),
        )
    } else if holds_key(item, "liveChatPaidStickerRenderer"@) {
        message_or_skip(
            paid_message_of(
                renderer(item, "liveChatPaidStickerRenderer"@),
                MessageKind::SuperSticker,
            ),
        )
    } else if holds_key(item, "liveChatMembershipItemRenderer"@) {
        message_or_skip(
            authored_message_of(
                renderer(item, "liveChatMembershipItemRenderer"@),
                MessageKind::NewMembership,
                "headerSubtext"@,
            ),
        )
    } else if holds_key(item, "liveChatViewerEngagementMessageRenderer"@) {
        message_or_skip(
            engagement_message_of(renderer(item, "liveChatViewerEngagementMessageRenderer"@)),
        )
    } else if holds_key(item, "liveChatPlaceholderItemRenderer"@) {
        ParsedItemView::Skipped
    } else {
        ParsedItemView::Unsupported
    }
}

/// An item with none of the known renderer keys yields no message; every
/// message that an item yields is of one of the five kinds, and the kind is
/// the one its renderer key names.
pub proof fn lemma_closed_kind_set(item: Option<Json>)
    ensures
        unrecognized(item) ==> item_of(item) == ParsedItemView::Unsupported,
        item_of(item) matches ParsedItemView::Message(m) ==> {
            &&& m.message_type == MessageKind::Text ==> holds_key(item, "liveChatTextMessageRenderer"@)
            &&& m.message_type == MessageKind::SuperChat ==> holds_key(item, "liveChatPaidMessageRenderer"@)
            &&& m.message_type == MessageKind::SuperSticker ==> holds_key(item, "liveChatPaidStickerRenderer"@)
            &&& m.message_type == MessageKind::NewMembership ==> holds_key(item, "liveChatMembershipItemRenderer"@)
            &&& m.message_type == MessageKind::ViewerEngagement ==> holds_key(item, "liveChatViewerEngagementMessageRenderer"@)
        },
{
}

/// Every message read from an item carries its runs; each run holds exactly
/// one of text and emoji, and the plain text is the text of the text runs,
/// in order.
pub proof fn lemma_message_runs(item: Option<Json>)
    ensures
        item_of(item) matches ParsedItemView::Message(m) ==> {
            &&& m.message_ex is Some
            &&& m.message == plain_text(m.message_ex->0)
            &&& forall|i: int|
                0 <= i < m.message_ex->0.len() ==> (#[trigger] m.message_ex->0[i]).well_shaped()
        },
{
    let pairs = seq![
        ("liveChatTextMessageRenderer"@, "message"@),
        ("liveChatPaidMessageRenderer"@, "message"@),
        ("liveChatPaidStickerRenderer"@, "message"@),
        ("liveChatMembershipItemRenderer"@, "headerSubtext"@),
        ("liveChatViewerEngagementMessageRenderer"@, "message"@),
    ];
    assert forall|j: int| 0 <= j < 5 implies ({
        let (key, field) = #[trigger] pairs[j];
        let runs = key_of(key_of(Some(renderer(item, key)), field), "runs"@);
        forall|i: int| 0 <= i < runs_of(runs).len() ==> (#[trigger] runs_of(runs)[i]).well_shaped()
    }) by {
        let (key, field) = pairs[j];
        lemma_runs_well_shaped(key_of(key_of(Some(renderer(item, key)), field), "runs"@));
    }
    assert(pairs[0] == ("liveChatTextMessageRenderer"@, "message"@));
    assert(pairs[1] == ("liveChatPaidMessageRenderer"@, "message"@));
    assert(pairs[2] == ("liveChatPaidStickerRenderer"@, "message"@));
    assert(pairs[3] == ("liveChatMembershipItemRenderer"@, "headerSubtext"@));
    assert(pairs[4] == ("liveChatViewerEngagementMessageRenderer"@, "message"@));
}

/// Reads one raw chat item.
pub fn parse_item(item: Option<&Json>) -> (r: ParsedItem)
    ensures
        r@ == item_of(deref_opt(item)),
{
    let p = match member(item, "liveChatTextMessageRenderer") {
        Some(r) => parse_text_message(r),
        None => match member(item, "liveChatPaidMessageRenderer") {
            Some(r) => parse_paid_message(r, MessageKind::SuperChat),
            None => match member(item, "liveChatPaidStickerRenderer") {
                Some(r) => parse_paid_message(r, MessageKind::SuperSticker),
                None => match member(item, "liveChatMembershipItemRenderer") {
                    Some(r) => parse_membership_message(r),
                    None => match member(item, "liveChatViewerEngagementMessageRenderer") {
                        Some(r) => parse_viewer_engagement_message(r),
                        None => {
                            return match member(item, "liveChatPlaceholderItemRenderer") {
                                Some(_) => ParsedItem::Skipped,
                                None => ParsedItem::Unsupported,
                            };
                        },
                    },
                },
            },
        },
    };
    match p {
        Some(m) => ParsedItem::Message(m),
        None => ParsedItem::Skipped,
    }
}

/// Why a poll of the chat feed failed; each ends the session.
#[derive(Debug, Clone, Copy, PartialEq, Eq, Structural)]
pub enum FetchError {
    /// The request could not be sent or its answer not received.
    Transport,
    /// The answer is not a JSON document.
    Undecodable,
    /// The answer names no next continuation.
    MissingContinuation,
}

/// What one poll of the chat feed gave.
#[derive(Debug)]
pub struct ChatBatch {
    /// The messages, in the order of the feed.
    pub messages: Vec<ChatMessage>,
    /// The positions, among the actions, of the items of unknown kind.
    pub unsupported: Vec<usize>,
    /// The cursor to resume from.
    pub continuation: String,
    /// The wait that the server suggests before the next poll.
    pub timeout_ms: u64,
}

pub open spec fn messages_view(v: Seq<ChatMessage>) -> Seq<ChatMessageView> {
    v.map_values(|m: ChatMessage| m@)
}

/// The chat item of an action, where the action adds one.
pub open spec fn action_item(a: Json) -> Option<Option<Json>> {
    let add = key_of(Some(a), "addChatItemAction"@);
    if add is Some {
        Some(key_of(add, "item"@))
    } else {
        None
    }
}

/// The messages that the first `n` actions give, in order.
pub open spec fn batch_prefix(actions: Seq<Json>, n: int) -> Seq<ChatMessageView>
    decreases n,
{
    if n <= 0 {
        Seq::empty()
    } else {
        let prev = batch_prefix(actions, n - 1);
        match action_item(actions[n - 1]) {
            Some(item) => match item_of(item) {
                ParsedItemView::Message(m) => prev.push(m),
                _ => prev,
            },
            None => prev,
        }
    }
}

/// The positions among the first `n` actions of the items of unknown kind.
pub open spec fn unsupported_prefix(actions: Seq<Json>, n: int) -> Seq<usize>
    decreases n,
{
    if n <= 0 {
        Seq::empty()
    } else {
        let prev = unsupported_prefix(actions, n - 1);
        match action_item(actions[n - 1]) {
            Some(item) => match item_of(item) {
                ParsedItemView::Unsupported => prev.push((n - 1) as usize),
                _ => prev,
            },
            None => prev,
        }
    }
}

/// The body of a fetch answer.
pub open spec fn continuation_body(resp: Json) -> Option<Json> {
    key_of(key_of(Some(resp), "continuationContents"@), "liveChatContinuation"@)
}

/// The actions of a fetch answer; none where there is no list of them.
pub open spec fn actions_of(resp: Json) -> Seq<Json> {
    match items_of(key_of(continuation_body(resp), "actions"@)) {
        Some(a) => a,
        None => Seq::empty(),
    }
}

/// The continuation data of one entry: timed, else invalidation, else reload.
pub open spec fn cont_data(c: Json) -> Option<Json> {
    let timed = key_of(Some(c), "timedContinuationData"@);
    let invalidation = key_of(Some(c), "invalidationContinuationData"@);
    let reload = key_of(Some(c), "reloadContinuationData"@);
    if timed is Some {
        timed
    } else if invalidation is Some {
        invalidation
    } else {
        reload
    }
}

/// The continuation data of the first entry at or after `i` that has any.
pub open spec fn first_cont(items: Seq<Json>, i: int) -> Option<Json>
    decreases items.len() - i,
{
    if i < 0 || i >= items.len() {
        None
    } else if cont_data(items[i]) is Some {
        cont_data(items[i])
    } else {
        first_cont(items, i + 1)
    }
}

/// The value of `j` where it is a non-negative integer, else zero.
pub open spec fn uint_or_zero(j: Option<Json>) -> u64 {
    match uint_of(j) {
        Some(n) => n,
        None => 0,
    }
}

/// The next cursor and suggested wait that a fetch answer gives: from the
/// first continuation entry that has data, its cursor (empty where it is
/// not a string) and its wait (zero where it is not a count).
pub open spec fn next_continuation(resp: Json) -> Option<(Seq<char>, u64)> {
    match items_of(key_of(continuation_body(resp), "continuations"@)) {
        Some(items) => match first_cont(items, 0) {
            Some(d) => Some(
                (text_or_empty(key_of(Some(d), "continuation"@)), uint_or_zero(key_of(Some(d), "timeoutMs"@))),
            ),
            None => None,
        },
        None => None,
    }
}

/// A fetch answer names a next cursor that is not empty.
pub open spec fn continues(resp: Json) -> bool {
    next_continuation(resp) matches Some(c) && c.0.len() > 0
}

/// Reads the continuation entries of a fetch answer.
fn read_continuation(resp: &Json) -> (r: Option<(String, u64)>)
    ensures
        r matches Some(c) ==> next_continuation(*resp) == Some((c.0@, c.1)),
        r is None ==> next_continuation(*resp) is None,
{
    let list = member(member(member(Some(resp), "continuationContents"), "liveChatContinuation"), "continuations");
    match list {
        Some(l) => match l.as_array() {
            Some(items) => {
                let mut i: usize = 0;
                while i < items.len()
                    invariant
                        0 <= i <= items@.len(),
                        items_of(deref_opt(list)) == Some(items@),
                        deref_opt(list) == key_of(continuation_body(*resp), "continuations"@),
                        first_cont(items@, 0) == first_cont(items@, i as int),
                    decreases items@.len() - i,
                {
                    let c = Some(&items[i]);
                    let timed = member(c, "timedContinuationData");
                    let invalidation = member(c, "invalidationContinuationData");
                    let reload = member(c, "reloadContinuationData");
                    let d = if timed.is_some() {
                        timed
                    } else if invalidation.is_some() {
                        invalidation
                    } else {
                        reload
                    };
                    if d.is_some() {
                        assert(deref_opt(d) == cont_data(items@[i as int]));
                        let token = text_or_default(member(d, "continuation"));
                        let wait = match uint(member(d, "timeoutMs")) {
                            Some(n) => n,
                            None => 0,
                        };
                        return Some((token, wait));
                    }
                    i = i + 1;
                }
                None
            },
            None => None,
        },
        None => None,
    }
}

/// Reads a fetch answer: the messages of its actions, in order (items of a
/// known kind that lack a required field, and placeholders, give none), and
/// the next cursor with the suggested wait. Fails exactly where the answer
/// names no next cursor, or an empty one.
pub fn parse_chat_response(resp: &Json) -> (r: Result<ChatBatch, FetchError>)
    ensures
        r matches Ok(b) ==> {
            &&& continues(*resp)
            &&& next_continuation(*resp) == Some((b.continuation@, b.timeout_ms))
            &&& messages_view(b.messages@) == batch_prefix(actions_of(*resp), actions_of(*resp).len() as int)
            &&& b.unsupported@ == unsupported_prefix(actions_of(*resp), actions_of(*resp).len() as int)
        },
        r matches Err(e) ==> e == FetchError::MissingContinuation && !continues(*resp),
{
    let mut messages: Vec<ChatMessage> = Vec::new();
    let mut unsupported: Vec<usize> = Vec::new();
    let list = member(member(member(Some(resp), "continuationContents"), "liveChatContinuation"), "actions");
    match list {
        Some(l) => match l.as_array() {
            Some(actions) => {
                let mut i: usize = 0;
                while i < actions.len()
                    invariant
                        0 <= i <= actions@.len(),
                        actions_of(*resp) == actions@,
                        messages_view(messages@) == batch_prefix(actions@, i as int),
                        unsupported@ == unsupported_prefix(actions@, i as int),
                    decreases actions@.len() - i,
                {
                    let add = member(Some(&actions[i]), "addChatItemAction");
                    if add.is_some() {
                        match parse_item(member(add, "item")) {
                            ParsedItem::Message(m) => {
                                proof {
                                    assert(messages_view(messages@.push(m)) =~= messages_view(messages@).push(m@));
                                }
                                messages.push(m);
                            },
                            ParsedItem::Skipped => {},
                            ParsedItem::Unsupported => {
                                unsupported.push(i);
                            },
                        }
                    }
                    i = i + 1;
                }
            },
            None => {},
        },
        None => {},
    }
    match read_continuation(resp) {
        Some((continuation, timeout_ms)) => {
            if continuation.unicode_len() == 0 {
                Err(FetchError::MissingContinuation)
            } else {
                Ok(ChatBatch { messages, unsupported, continuation, timeout_ms })
            }
        },
        None => Err(FetchError::MissingContinuation),
    }
}

} // verus!
