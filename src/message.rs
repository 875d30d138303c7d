use vstd::prelude::*;
use chrono::TimeZone;
use crate::author::{author_of, opt_text, parse_author};
use crate::json::{Json, deref_opt, key_of, member, text, text_of, uint, uint_of};
use crate::model::{Amount, AuthorView, ChatMessage, ChatMessageView, MessageKind, plain_text, runs_view};
use crate::runs::{join_text, parse_message_runs, runs_of};

verus! {

pub open spec fn is_digit(c: char) -> bool {
    '0' <= c && c <= '9'
}

pub open spec fn digit_value(c: char) -> nat {
    (c as u32 - '0' as u32) as nat
}

/// The number that a non-empty run of decimal digits spells.
pub open spec fn digits_value(s: Seq<char>) -> nat
    decreases s.len(),
{
    if s.len() == 0 {
        0
    } else {
        digits_value(s.drop_last()) * 10 + digit_value(s.last())
    }
}

pub open spec fn all_digits(s: Seq<char>) -> bool {
    s.len() > 0 && forall|i: int| 0 <= i < s.len() ==> is_digit(#[trigger] s[i])
}

/// The integer that `s` spells in decimal: an optional sign, then digits.
pub open spec fn signed_decimal(s: Seq<char>) -> Option<int> {
    if s.len() > 0 && s[0] == '-' && all_digits(s.drop_first()) {
        Some(-(digits_value(s.drop_first()) as int))
    } else if s.len() > 0 && s[0] == '+' && all_digits(s.drop_first()) {
        Some(digits_value(s.drop_first()) as int)
    } else if all_digits(s) {
        Some(digits_value(s) as int)
    } else {
        None
    }
}

/// Relies on str::parse::<i64>: an optional sign followed by decimal digits,
/// whose value fits in an i64.
#[verifier::external_body]
fn parse_i64(s: &str) -> (r: Option<i64>)
    ensures
        r matches Some(v) ==> signed_decimal(s@) == Some(v as int),
        r is None ==> match signed_decimal(s@) {
            Some(v) => v < i64::MIN || v > i64::MAX,
            None => true,
        },
{
    s.parse::<i64>().ok()
}

/// A microsecond count in milliseconds, rounded toward zero.
pub open spec fn millis_of(usec: int) -> int {
    if usec >= 0 {
        usec / 1000
    } else {
        -((-usec) / 1000)
    }
}

/// The UTC calendar time `ms` milliseconds after the Unix epoch, rendered as
/// `YYYY-MM-DD HH:MM:SS`; none where the instant is out of range.
pub uninterp spec fn utc_datetime(ms: int) -> Option<Seq<char>>;

/// Relies on chrono's Utc::timestamp_millis_opt, and on DateTime::format with
/// the pattern `%Y-%m-%d %H:%M:%S`, to render an instant in UTC.
#[verifier::external_body]
fn format_utc_millis(ms: i64) -> (r: Option<String>)
    ensures
        opt_text(r) == utc_datetime(ms as int),
{
    chrono::Utc.timestamp_millis_opt(ms).single().map(
        |d| d.format("%Y-%m-%d %H:%M:%S").to_string(),
    )
}

/// The instant that a microsecond timestamp text gives: its value in
/// milliseconds and its UTC rendering; none where either cannot be had.
pub open spec fn instant_of(usec: Seq<char>) -> Option<(i64, Seq<char>)> {
    match signed_decimal(usec) {
        Some(v) => if i64::MIN <= v <= i64::MAX && utc_datetime(millis_of(v)) is Some {
            Some((millis_of(v) as i64, utc_datetime(millis_of(v))->0))
        } else {
            None
        },
        None => None,
    }
}

/// Reads a microsecond timestamp text into milliseconds since the epoch and
/// the matching UTC calendar time.
pub fn parse_timestamp(usec: &str) -> (r: Option<(i64, String)>)
    ensures
        r matches Some(p) ==> instant_of(usec@) == Some((p.0, p.1@)),
        r is None ==> instant_of(usec@) is None,
{
    let v = match parse_i64(usec) {
        Some(v) => v,
        None => return None,
    };
    let ms: i64 = if v >= 0 {
        v / 1000
    } else {
        let m = (-(v as i128)) / 1000;
        -(m as i64)
    };
    match format_utc_millis(ms) {
        Some(d) => Some((ms, d)),
        None => None,
    }
}

/// The state of a left-to-right reading of a purchase amount text.
pub struct AmountScan {
    pub started: bool,
    pub dot: bool,
    pub bad: bool,
    pub units: nat,
    pub scale: nat,
    pub digits: nat,
}

pub open spec fn scan_start() -> AmountScan {
    AmountScan { started: false, dot: false, bad: false, units: 0, scale: 0, digits: 0 }
}

/// One character of an amount text: commas are ignored, characters before
/// the number (a currency symbol or code) are skipped, digits and at most
/// one decimal point make up the number, and anything else spoils it.
pub open spec fn scan_step(st: AmountScan, c: char) -> AmountScan {
    if c == ',' {
        st
    } else if is_digit(c) {
        AmountScan {
            started: true,
            units: st.units * 10 + digit_value(c),
            digits: st.digits + 1,
            scale: if st.dot {
                st.scale + 1
            } else {
                st.scale
            },
            ..st
        }
    } else if c == '.' {
        if st.dot {
            AmountScan { bad: true, ..st }
        } else {
            AmountScan { started: true, dot: true, ..st }
        }
    } else if !st.started {
        st
    } else {
        AmountScan { bad: true, ..st }
    }
}

pub open spec fn scan_prefix(s: Seq<char>, n: int) -> AmountScan
    decreases n,
{
    if n <= 0 {
        scan_start()
    } else {
        scan_step(scan_prefix(s, n - 1), s[n - 1])
    }
}

/// The exact value of a purchase amount text such as `$1,234.56`: the
/// commas dropped and a leading currency prefix skipped, the rest must be
/// decimal digits with at most one decimal point; none otherwise, or where
/// the value does not fit.
pub open spec fn amount_of(s: Seq<char>) -> Option<Amount> {
    let st = scan_prefix(s, s.len() as int);
    if !st.bad && st.digits > 0 && st.units <= u64::MAX && st.scale <= u32::MAX {
        Some(Amount { units: st.units as u64, scale: st.scale as u32 })
    } else {
        None
    }
}

/// Reads the exact value of a purchase amount text.
pub fn parse_amount(s: &str) -> (r: Option<Amount>)
    ensures
        r == amount_of(s@),
{
    let len = s.unicode_len();
    let mut started = false;
    let mut dot = false;
    let mut bad = false;
    let mut overflow = false;
    let mut units: u64 = 0;
    let mut scale: usize = 0;
    let mut digits: usize = 0;
    let mut i: usize = 0;
    while i < len
        invariant
            len == s@.len(),
            0 <= i <= len,
            digits <= i,
            scale <= i,
            ({
                let st = scan_prefix(s@, i as int);
                started == st.started && dot == st.dot && bad == st.bad && digits == st.digits
                    && scale == st.scale && (!overflow ==> units == st.units) && (overflow
                    ==> st.units > u64::MAX)
            }),
        decreases len - i,
    {
        let c = s.get_char(i);
        let ghost st = scan_prefix(s@, i as int);
        if c == ',' {
        } else if '0' <= c && c <= '9' {
            let d: u64 = (c as u32 - '0' as u32) as u64;
            assert(d == digit_value(c));
            if !overflow {
                if units > (u64::MAX - d) / 10 {
                    assert(units * 10 + d > u64::MAX) by (nonlinear_arith)
                        requires
                            units > (u64::MAX - d) / 10,
                            d <= 9,
                    ;
                    overflow = true;
                } else {
                    assert(units * 10 + d <= u64::MAX) by (nonlinear_arith)
                        requires
                            units <= (u64::MAX - d) / 10,
                            d <= 9,
                    ;
                    units = units * 10 + d;
                }
            } else {
                assert(st.units * 10 + d > u64::MAX) by (nonlinear_arith)
                    requires
                        st.units > u64::MAX,
                ;
            }
            started = true;
            digits = digits + 1;
            if dot {
                scale = scale + 1;
            }
        } else if c == '.' {
            if dot {
                bad = true;
            } else {
                started = true;
                dot = true;
            }
        } else if started {
            bad = true;
        }
        i = i + 1;
    }
    if !bad && !overflow && digits > 0 && scale <= u32::MAX as usize {
        Some(Amount { units, scale: scale as u32 })
    } else {
        None
    }
}

/// A message with the fields that every kind shares; no amount, currency or
/// color.
pub open spec fn base_message(
    kind: MessageKind,
    id: Seq<char>,
    runs: Seq<crate::model::MessageRunView>,
    at: (i64, Seq<char>),
    author: AuthorView,
) -> ChatMessageView {
    ChatMessageView {
        message_type: kind,
        id,
        message: plain_text(runs),
        message_ex: Some(runs),
        timestamp: at.0,
        datetime: at.1,
        elapsed_time: None,
        amount_value: None,
        amount_string: None,
        currency: None,
        bg_color: None,
        author,
    }
}

/// The id and the instant of a renderer, where both can be read.
pub open spec fn stamp_of(r: Json) -> Option<(Seq<char>, (i64, Seq<char>))> {
    let id = text_of(key_of(Some(r), "id"@));
    let usec = text_of(key_of(Some(r), "timestampUsec"@));
    if id is Some && usec is Some && instant_of(usec->0) is Some {
        Some((id->0, instant_of(usec->0)->0))
    } else {
        None
    }
}

/// The author of a renderer, from its name, photo and badge fragments.
pub open spec fn renderer_author(r: Json) -> Option<AuthorView> {
    author_of(
        key_of(Some(r), "authorName"@),
        key_of(Some(r), "authorPhoto"@),
        key_of(Some(r), "authorBadges"@),
    )
}

/// The runs of the run list under `field` of a renderer.
pub open spec fn renderer_runs(r: Json, field: Seq<char>) -> Seq<crate::model::MessageRunView> {
    runs_of(key_of(key_of(Some(r), field), "runs"@))
}

/// A message of `kind` with an author, whose text is under `field`.
pub open spec fn authored_message_of(r: Json, kind: MessageKind, field: Seq<char>) -> Option<
    ChatMessageView,
> {
    let a = renderer_author(r);
    let st = stamp_of(r);
    if a is Some && st is Some {
        let (id, at) = st->0;
        Some(base_message(kind, id, renderer_runs(r, field), at, a->0))
    } else {
        None
    }
}

/// A platform banner: its text, with the empty author.
pub open spec fn engagement_message_of(r: Json) -> Option<ChatMessageView> {
    let st = stamp_of(r);
    if st is Some {
        let (id, at) = st->0;
        Some(
            base_message(
                MessageKind::ViewerEngagement,
                id,
                renderer_runs(r, "message"@),
                at,
                crate::model::empty_author(),
            ),
        )
    } else {
        None
    }
}

/// A color value cut to 32 bits.
pub open spec fn color_of(v: u64) -> u32 {
    (v % 0x1_0000_0000) as u32
}

/// A paid message or sticker: an authored message with the purchase amount
/// text and its value, the currency and the header background color.
pub open spec fn paid_message_of(r: Json, kind: MessageKind) -> Option<ChatMessageView> {
    match authored_message_of(r, kind, "message"@) {
        Some(m) => {
            let amount = text_of(key_of(key_of(Some(r), "purchaseAmountText"@), "simpleText"@));
            Some(
                ChatMessageView {
                    amount_string: amount,
                    amount_value: match amount {
                        Some(t) => amount_of(t),
                        None => None,
                    },
                    currency: text_of(key_of(Some(r), "currency"@)),
                    bg_color: match uint_of(key_of(Some(r), "headerBackgroundColor"@)) {
                        Some(v) => Some(color_of(v)),
                        None => None,
                    },
                    ..m
                },
            )
        },
        None => None,
    }
}

/// Reads the id and the instant of a renderer.
fn read_stamp(r: &Json) -> (res: Option<(String, i64, String)>)
    ensures
        res matches Some(p) ==> stamp_of(*r) == Some((p.0@, (p.1, p.2@))),
        res is None ==> stamp_of(*r) is None,
{
    let id = match text(r.get("id")) {
        Some(id) => id,
        None => return None,
    };
    let usec = match text(r.get("timestampUsec")) {
        Some(u) => u,
        None => return None,
    };
    match parse_timestamp(usec.as_str()) {
        Some((ms, d)) => Some((id, ms, d)),
        None => None,
    }
}

/// Puts together a message with the fields that every kind shares.
fn build_message(
    kind: MessageKind,
    stamp: (String, i64, String),
    runs: Vec<crate::model::MessageRun>,
    author: crate::model::Author,
) -> (m: ChatMessage)
    ensures
        m@ == base_message(kind, stamp.0@, runs_view(runs@), (stamp.1, stamp.2@), author@),
{
    let message = join_text(&runs);
    let (id, timestamp, datetime) = stamp;
    ChatMessage {
        message_type: kind,
        id,
        message,
        message_ex: Some(runs),
        timestamp,
        datetime,
        elapsed_time: None,
        amount_value: None,
        amount_string: None,
        currency: None,
        bg_color: None,
        author,
    }
}

/// Reads a message that has an author, with its text under `field`.
fn parse_authored(r: &Json, kind: MessageKind, field: &str) -> (res: Option<ChatMessage>)
    ensures
        res matches Some(m) ==> authored_message_of(*r, kind, field@) == Some(m@),
        res is None ==> authored_message_of(*r, kind, field@) is None,
{
    let author = match parse_author(r.get("authorName"), r.get("authorPhoto"), r.get("authorBadges")) {
        Some(a) => a,
        None => return None,
    };
    let runs = parse_message_runs(member(r.get(field), "runs"));
    match read_stamp(r) {
        Some(stamp) => Some(build_message(kind, stamp, runs, author)),
        None => None,
    }
}

/// Reads a plain text message.
pub fn parse_text_message(r: &Json) -> (res: Option<ChatMessage>)
    ensures
        res matches Some(m) ==> authored_message_of(*r, MessageKind::Text, "message"@) == Some(m@),
        res is None ==> authored_message_of(*r, MessageKind::Text, "message"@) is None,
{
    parse_authored(r, MessageKind::Text, "message")
}

/// Reads a membership event; its text is the header subtext.
pub fn parse_membership_message(r: &Json) -> (res: Option<ChatMessage>)
    ensures
        res matches Some(m) ==> authored_message_of(*r, MessageKind::NewMembership, "headerSubtext"@)
            == Some(m@),
        res is None ==> authored_message_of(*r, MessageKind::NewMembership, "headerSubtext"@) is None,
{
    parse_authored(r, MessageKind::NewMembership, "headerSubtext")
}

/// Reads a platform banner, which has no author.
pub fn parse_viewer_engagement_message(r: &Json) -> (res: Option<ChatMessage>)
    ensures
        res matches Some(m) ==> engagement_message_of(*r) == Some(m@),
        res is None ==> engagement_message_of(*r) is None,
{
    let runs = parse_message_runs(member(r.get("message"), "runs"));
    match read_stamp(r) {
        Some(stamp) => Some(build_message(MessageKind::ViewerEngagement, stamp, runs, crate::model::Author::empty())),
        None => None,
    }
}

/// Reads a paid message or a paid sticker, as `kind` says.
pub fn parse_paid_message(r: &Json, kind: MessageKind) -> (res: Option<ChatMessage>)
    ensures
        res matches Some(m) ==> paid_message_of(*r, kind) == Some(m@),
        res is None ==> paid_message_of(*r, kind) is None,
{
    let mut m = match parse_authored(r, kind, "message") {
        Some(m) => m,
        None => return None,
    };
    let amount_string = text(member(r.get("purchaseAmountText"), "simpleText"));
    let amount_value = match &amount_string {
        Some(t) => parse_amount(t.as_str()),
        None => None,
    };
    let bg_color = match uint(r.get("headerBackgroundColor")) {
        Some(v) => Some((v % 0x1_0000_0000) as u32),
        None => None,
    };
    m.amount_value = amount_value;
    m.amount_string = amount_string;
    m.currency = text(r.get("currency"));
    m.bg_color = bg_color;
    Some(m)
}

} // verus!
