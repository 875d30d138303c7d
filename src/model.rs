use vstd::prelude::*;

verus! {

/// A custom or standard emoji inside a chat message.
#[derive(Debug)]
pub struct Emoji {
    pub id: String,
    pub txt: String,
    pub url: String,
}

pub struct EmojiView {
    pub id: Seq<char>,
    pub txt: Seq<char>,
    pub url: Seq<char>,
}

impl View for Emoji {
    type V = EmojiView;

    open spec fn view(&self) -> EmojiView {
        EmojiView { id: self.id@, txt: self.txt@, url: self.url@ }
    }
}

/// One piece of a rendered message: literal text or a single emoji.
#[derive(Debug)]
pub struct MessageRun {
    pub text: Option<String>,
    pub emoji: Option<Emoji>,
}

pub struct MessageRunView {
    pub text: Option<Seq<char>>,
    pub emoji: Option<EmojiView>,
}

impl View for MessageRun {
    type V = MessageRunView;

    open spec fn view(&self) -> MessageRunView {
        MessageRunView {
            text: match self.text {
                Some(t) => Some(t@),
                None => None,
            },
            emoji: match self.emoji {
                Some(e) => Some(e@),
                None => None,
            },
        }
    }
}

impl MessageRunView {
    /// Exactly one of text and emoji is present.
    pub open spec fn well_shaped(self) -> bool {
        self.text is Some <==> self.emoji is None
    }
}

/// The views of a sequence of runs.
pub open spec fn runs_view(runs: Seq<MessageRun>) -> Seq<MessageRunView> {
    runs.map_values(|r: MessageRun| r@)
}

/// The concatenation, in order, of the text of every text run.
pub open spec fn plain_text(runs: Seq<MessageRunView>) -> Seq<char>
    decreases runs.len(),
{
    if runs.len() == 0 {
        Seq::empty()
    } else {
        plain_text(runs.drop_last()) + match runs.last().text {
            Some(t) => t,
            None => Seq::empty(),
        }
    }
}

/// Who wrote a message, and the roles that the author's badges show.
#[derive(Debug)]
pub struct Author {
    pub name: String,
    pub channel_id: String,
    pub channel_url: String,
    pub image_url: String,
    pub badge_url: Option<String>,
    pub is_verified: bool,
    pub is_chat_owner: bool,
    pub is_chat_sponsor: bool,
    pub is_chat_moderator: bool,
}

pub struct AuthorView {
    pub name: Seq<char>,
    pub channel_id: Seq<char>,
    pub channel_url: Seq<char>,
    pub image_url: Seq<char>,
    pub badge_url: Option<Seq<char>>,
    pub is_verified: bool,
    pub is_chat_owner: bool,
    pub is_chat_sponsor: bool,
    pub is_chat_moderator: bool,
}

impl View for Author {
    type V = AuthorView;

    open spec fn view(&self) -> AuthorView {
        AuthorView {
            name: self.name@,
            channel_id: self.channel_id@,
            channel_url: self.channel_url@,
            image_url: self.image_url@,
            badge_url: match self.badge_url {
                Some(u) => Some(u@),
                None => None,
            },
            is_verified: self.is_verified,
            is_chat_owner: self.is_chat_owner,
            is_chat_sponsor: self.is_chat_sponsor,
            is_chat_moderator: self.is_chat_moderator,
        }
    }
}

/// The author of a platform-generated banner: all text empty, no flag set.
pub open spec fn empty_author() -> AuthorView {
    AuthorView {
        name: Seq::empty(),
        channel_id: Seq::empty(),
        channel_url: Seq::empty(),
        image_url: Seq::empty(),
        badge_url: None,
        is_verified: false,
        is_chat_owner: false,
        is_chat_sponsor: false,
        is_chat_moderator: false,
    }
}

impl Author {
    pub fn empty() -> (r: Author)
        ensures
            r@ == empty_author(),
    {
        Author {
            name: String::new(),
            channel_id: String::new(),
            channel_url: String::new(),
            image_url: String::new(),
            badge_url: None,
            is_verified: false,
            is_chat_owner: false,
            is_chat_sponsor: false,
            is_chat_moderator: false,
        }
    }
}

/// The closed set of message kinds.
#[derive(Debug, Clone, Copy, PartialEq, Eq, Structural)]
pub enum MessageKind {
    Text,
    SuperChat,
    SuperSticker,
    NewMembership,
    ViewerEngagement,
}

impl MessageKind {
    /// The name under which the kind is shown.
    pub open spec fn name_spec(self) -> Seq<char> {
        match self {
            MessageKind::Text => "textMessage"@,
            MessageKind::SuperChat => "superChat"@,
            MessageKind::SuperSticker => "superSticker"@,
            MessageKind::NewMembership => "newSponsor"@,
            MessageKind::ViewerEngagement => "viewerEngagementMessage"@,
        }
    }

    pub fn name(&self) -> (r: String)
        ensures
            r@ == self.name_spec(),
    {
        match self {
            MessageKind::Text => String::from_str("textMessage"),
            MessageKind::SuperChat => String::from_str("superChat"),
            MessageKind::SuperSticker => String::from_str("superSticker"),
            MessageKind::NewMembership => String::from_str("newSponsor"),
            MessageKind::ViewerEngagement => String::from_str("viewerEngagementMessage"),
        }
    }
}

/// A purchase amount as an exact decimal: `units / 10^scale`.
#[derive(Debug, Clone, Copy, PartialEq, Eq, Structural)]
pub struct Amount {
    pub units: u64,
    pub scale: u32,
}

/// One normalized chat message.
#[derive(Debug)]
pub struct ChatMessage {
    pub message_type: MessageKind,
    pub id: String,
    pub message: String,
    pub message_ex: Option<Vec<MessageRun>>,
    /// Milliseconds since the Unix epoch.
    pub timestamp: i64,
    /// The same instant in UTC, as `YYYY-MM-DD HH:MM:SS`.
    pub datetime: String,
    pub elapsed_time: Option<String>,
    pub amount_value: Option<Amount>,
    pub amount_string: Option<String>,
    pub currency: Option<String>,
    pub bg_color: Option<u32>,
    pub author: Author,
}

pub struct ChatMessageView {
    pub message_type: MessageKind,
    pub id: Seq<char>,
    pub message: Seq<char>,
    pub message_ex: Option<Seq<MessageRunView>>,
    pub timestamp: i64,
    pub datetime: Seq<char>,
    pub elapsed_time: Option<Seq<char>>,
    pub amount_value: Option<Amount>,
    pub amount_string: Option<Seq<char>>,
    pub currency: Option<Seq<char>>,
    pub bg_color: Option<u32>,
    pub author: AuthorView,
}

/// The view of an optional string.
pub open spec fn opt_view(s: Option<String>) -> Option<Seq<char>> {
    match s {
        Some(t) => Some(t@),
        None => None,
    }
}

impl View for ChatMessage {
    type V = ChatMessageView;

    open spec fn view(&self) -> ChatMessageView {
        ChatMessageView {
            message_type: self.message_type,
            id: self.id@,
            message: self.message@,
            message_ex: match self.message_ex {
                Some(v) => Some(runs_view(v@)),
                None => None,
            },
            timestamp: self.timestamp,
            datetime: self.datetime@,
            elapsed_time: opt_view(self.elapsed_time),
            amount_value: self.amount_value,
            amount_string: opt_view(self.amount_string),
            currency: opt_view(self.currency),
            bg_color: self.bg_color,
            author: self.author@,
        }
    }
}

} // verus!
