use vstd::prelude::*;
use crate::model::{Author, AuthorView, ChatMessage, ChatMessageView};

verus! {

/// One glyph for each role flag that is set, in the order verified, owner,
/// sponsor, moderator.
pub open spec fn badge_symbols(a: AuthorView) -> Seq<char> {
    (if a.is_verified {
        "✔"@
    } else {
        Seq::empty()
    }) + (if a.is_chat_owner {
        "👑"@
    } else {
        Seq::empty()
    }) + (if a.is_chat_sponsor {
        "💎"@
    } else {
        Seq::empty()
    }) + (if a.is_chat_moderator {
        "🔧"@
    } else {
        Seq::empty()
    })
}

/// The log line of a message: `[datetime] [kind] name badges: text`.
pub open spec fn log_line(m: ChatMessageView, datetime: Seq<char>) -> Seq<char> {
    "["@ + datetime + "] ["@ + m.message_type.name_spec() + "] "@ + m.author.name + badge_symbols(
        m.author,
    ) + ": "@ + m.message
}

/// Renders the role glyphs of an author.
pub fn format_badges(a: &Author) -> (r: String)
    ensures
        r@ == badge_symbols(a@),
{
    let mut s = String::new();
    if a.is_verified {
        s.append("✔");
    }
    if a.is_chat_owner {
        s.append("👑");
    }
    if a.is_chat_sponsor {
        s.append("💎");
    }
    if a.is_chat_moderator {
        s.append("🔧");
    }
    proof {
        assert(s@ =~= badge_symbols(a@));
    }
    s
}

/// Renders the log line of a message, stamped with `datetime`.
pub fn format_log_message(message: &ChatMessage, datetime: &str) -> (r: String)
    ensures
        r@ == log_line(message@, datetime@),
{
    let mut s = String::from_str("[");
    s.append(datetime);
    s.append("] [");
    let kind = message.message_type.name();
    s.append(kind.as_str());
    s.append("] ");
    s.append(message.author.name.as_str());
    let badges = format_badges(&message.author);
    s.append(badges.as_str());
    s.append(": ");
    s.append(message.message.as_str());
    s
}

/// `s` with a backslash put before every double quote.
pub open spec fn escape_quotes(s: Seq<char>) -> Seq<char>
    decreases s.len(),
{
    if s.len() == 0 {
        Seq::empty()
    } else {
        escape_quotes(s.drop_last()) + if s.last() == '"' {
            seq!['\\', '"']
        } else {
            seq![s.last()]
        }
    }
}

/// The server command that shows `text` to every player.
pub open spec fn tellraw_of(text: Seq<char>) -> Seq<char> {
    "tellraw @a { \"text\": \""@ + escape_quotes(text) + "\" }"@
}

/// Builds the server command that shows `text` to every player.
pub fn tellraw_command(text: &str) -> (r: String)
    ensures
        r@ == tellraw_of(text@),
{
    let len = text.unicode_len();
    let mut out = String::from_str("tellraw @a { \"text\": \"");
    let ghost head = out@;
    let mut i: usize = 0;
    while i < len
        invariant
            len == text@.len(),
            0 <= i <= len,
            out@ == head + escape_quotes(text@.take(i as int)),
        decreases len - i,
    {
        proof {
            assert(text@.take(i + 1).drop_last() =~= text@.take(i as int));
        }
        let piece = text.substring_char(i, i + 1);
        if text.get_char(i) == '"' {
            out.append("\\\"");
            proof {
                assert("\\\""@ =~= seq!['\\', '"']) by {
                    reveal_strlit("\\\"");
                }
            }
        } else {
            proof {
                assert(piece@ =~= seq![text@[i as int]]);
            }
            out.append(piece);
        }
        proof {
            assert(out@ =~= head + escape_quotes(text@.take(i + 1)));
        }
        i = i + 1;
    }
    proof {
        assert(text@.take(len as int) =~= text@);
    }
    out.append("\" }");
    out
}

} // verus!
