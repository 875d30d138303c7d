use vstd::prelude::*;
use crate::json::{Json, deref_opt, element, idx_of, items_of, key_of, member, text, text_of};
use crate::model::{Author, AuthorView};

verus! {

/// The lower-case form of a text, as `str::to_lowercase` gives it.
pub uninterp spec fn lower_of(s: Seq<char>) -> Seq<char>;

/// Relies on str::to_lowercase: the result depends on the characters alone.
#[verifier::external_body]
fn lowercase(s: &str) -> (r: String)
    ensures
        r@ == lower_of(s@),
{
    s.to_lowercase()
}

/// `t` occurs in `s` as a contiguous piece.
pub open spec fn has_sub(s: Seq<char>, t: Seq<char>) -> bool {
    exists|i: int| 0 <= i && i + t.len() <= s.len() && #[trigger] s.subrange(i, i + t.len()) == t
}

/// Relies on str::contains with a string pattern: whether `t` occurs in `s`.
#[verifier::external_body]
fn contains(s: &str, t: &str) -> (r: bool)
    ensures
        r == has_sub(s@, t@),
{
    s.contains(t)
}

/// A role that an author badge can show.
#[derive(Debug, Clone, Copy, PartialEq, Eq, Structural)]
pub enum BadgeRole {
    Verified,
    Moderator,
    Owner,
    Sponsor,
}

/// The two keywords, English and Japanese, whose presence in a lower-case
/// badge label shows `role`.
pub open spec fn keywords(role: BadgeRole) -> (Seq<char>, Seq<char>) {
    match role {
        BadgeRole::Verified => ("verified"@, "認証済み"@),
        BadgeRole::Moderator => ("moderator"@, "モデレーター"@),
        BadgeRole::Owner => ("owner"@, "所有者"@),
        BadgeRole::Sponsor => ("member"@, "メンバー"@),
    }
}

/// `label` holds one of the keywords of `role`.
pub open spec fn shows(label: Seq<char>, role: BadgeRole) -> bool {
    has_sub(label, keywords(role).0) || has_sub(label, keywords(role).1)
}

/// The role that a lower-case label shows, the roles tried in the order
/// verified, moderator, owner, sponsor.
pub open spec fn role_of(label: Seq<char>) -> Option<BadgeRole> {
    if shows(label, BadgeRole::Verified) {
        Some(BadgeRole::Verified)
    } else if shows(label, BadgeRole::Moderator) {
        Some(BadgeRole::Moderator)
    } else if shows(label, BadgeRole::Owner) {
        Some(BadgeRole::Owner)
    } else if shows(label, BadgeRole::Sponsor) {
        Some(BadgeRole::Sponsor)
    } else {
        None
    }
}

/// Reads the role that a lower-case badge label shows.
pub fn classify_label(label: &str) -> (r: Option<BadgeRole>)
    ensures
        r == role_of(label@),
{
    if contains(label, "verified") || contains(label, "認証済み") {
        Some(BadgeRole::Verified)
    } else if contains(label, "moderator") || contains(label, "モデレーター") {
        Some(BadgeRole::Moderator)
    } else if contains(label, "owner") || contains(label, "所有者") {
        Some(BadgeRole::Owner)
    } else if contains(label, "member") || contains(label, "メンバー") {
        Some(BadgeRole::Sponsor)
    } else {
        None
    }
}

/// What an author's badges show: the last badge icon read, and the roles.
pub struct BadgeSummary {
    pub url: Option<Seq<char>>,
    pub verified: bool,
    pub owner: bool,
    pub sponsor: bool,
    pub moderator: bool,
}

pub open spec fn no_badges() -> BadgeSummary {
    BadgeSummary { url: None, verified: false, owner: false, sponsor: false, moderator: false }
}

/// `s` with the flag of `role` set, where there is a role.
pub open spec fn with_role(s: BadgeSummary, role: Option<BadgeRole>) -> BadgeSummary {
    match role {
        Some(BadgeRole::Verified) => BadgeSummary { verified: true, ..s },
        Some(BadgeRole::Moderator) => BadgeSummary { moderator: true, ..s },
        Some(BadgeRole::Owner) => BadgeSummary { owner: true, ..s },
        Some(BadgeRole::Sponsor) => BadgeSummary { sponsor: true, ..s },
        None => s,
    }
}

/// The icon of a thumbnail list holder: the url of its first thumbnail.
pub open spec fn thumb_url(holder: Option<Json>) -> Option<Seq<char>> {
    text_of(key_of(idx_of(key_of(holder, "thumbnails"@), 0), "url"@))
}

/// What one badge renderer does to the summary: its icon (or, lacking one,
/// its custom thumbnail) replaces the url, and its label may set a role.
pub open spec fn badge_step(s: BadgeSummary, r: Json) -> BadgeSummary {
    let icon = key_of(Some(r), "icon"@);
    let custom = key_of(Some(r), "customThumbnail"@);
    let s1 = if icon is Some {
        BadgeSummary { url: thumb_url(icon), ..s }
    } else if custom is Some {
        BadgeSummary { url: thumb_url(custom), ..s }
    } else {
        s
    };
    match text_of(
        key_of(key_of(key_of(Some(r), "accessibility"@), "accessibilityData"@), "label"@),
    ) {
        Some(l) => with_role(s1, role_of(lower_of(l))),
        None => s1,
    }
}

/// The summary of the first `n` raw badges.
pub open spec fn badges_prefix(badges: Seq<Json>, n: int) -> BadgeSummary
    decreases n,
{
    if n <= 0 {
        no_badges()
    } else {
        let prev = badges_prefix(badges, n - 1);
        match key_of(Some(badges[n - 1]), "liveChatAuthorBadgeRenderer"@) {
            Some(r) => badge_step(prev, r),
            None => prev,
        }
    }
}

/// The summary of a raw badge list; no badges where it is not a list.
pub open spec fn badges_of(badges: Option<Json>) -> BadgeSummary {
    match items_of(badges) {
        Some(items) => badges_prefix(items, items.len() as int),
        None => no_badges(),
    }
}

/// Reads the url of the first thumbnail of a thumbnail list holder.
fn thumbnail_url(holder: Option<&Json>) -> (r: Option<String>)
    ensures
        opt_text(r) == thumb_url(deref_opt(holder)),
{
    text(member(element(member(holder, "thumbnails"), 0), "url"))
}

/// The view of an optional string.
pub open spec fn opt_text(s: Option<String>) -> Option<Seq<char>> {
    match s {
        Some(t) => Some(t@),
        None => None,
    }
}

/// Reads a raw badge list: the icon url of the last badge that has one
/// (custom thumbnails standing in for icons), and the role flags.
pub fn read_badges(badges: Option<&Json>) -> (r: (Option<String>, bool, bool, bool, bool))
    ensures
        ({
            let s = badges_of(deref_opt(badges));
            opt_text(r.0) == s.url && r.1 == s.verified && r.2 == s.owner && r.3 == s.sponsor
                && r.4 == s.moderator
        }),
{
    let mut url: Option<String> = None;
    let mut verified = false;
    let mut owner = false;
    let mut sponsor = false;
    let mut moderator = false;
    match badges {
        Some(v) => match v.as_array() {
            Some(items) => {
                let mut i: usize = 0;
                while i < items.len()
                    invariant
                        0 <= i <= items@.len(),
                        items_of(deref_opt(badges)) == Some(items@),
                        ({
                            let s = badges_prefix(items@, i as int);
                            opt_text(url) == s.url && verified == s.verified && owner == s.owner
                                && sponsor == s.sponsor && moderator == s.moderator
                        }),
                    decreases items@.len() - i,
                {
                    let b = member(Some(&items[i]), "liveChatAuthorBadgeRenderer");
                    if b.is_some() {
                        let icon = member(b, "icon");
                        let custom = member(b, "customThumbnail");
                        if icon.is_some() {
                            url = thumbnail_url(icon);
                        } else if custom.is_some() {
                            url = thumbnail_url(custom);
                        }
                        let label = text(
                            member(member(member(b, "accessibility"), "accessibilityData"), "label"),
                        );
                        match label {
                            Some(l) => {
                                let lower = lowercase(l.as_str());
                                match classify_label(lower.as_str()) {
                                    Some(BadgeRole::Verified) => verified = true,
                                    Some(BadgeRole::Moderator) => moderator = true,
                                    Some(BadgeRole::Owner) => owner = true,
                                    Some(BadgeRole::Sponsor) => sponsor = true,
                                    None => {},
                                }
                            },
                            None => {},
                        }
                    }
                    i = i + 1;
                }
            },
            None => {},
        },
        None => {},
    }
    (url, verified, owner, sponsor, moderator)
}

/// The number of `/` in `s`.
pub open spec fn slashes(s: Seq<char>) -> nat
    decreases s.len(),
{
    if s.len() == 0 {
        0
    } else {
        slashes(s.drop_last()) + if s.last() == '/' {
            1nat
        } else {
            0nat
        }
    }
}

/// The characters among the first `i` of `s` that lie between the `n`-th
/// and the next `/` (counting from zero).
pub open spec fn segment_chars(s: Seq<char>, n: nat, i: int) -> Seq<char>
    decreases i,
{
    if i <= 0 {
        Seq::empty()
    } else {
        segment_chars(s, n, i - 1) + if s[i - 1] != '/' && slashes(s.take(i - 1)) == n {
            seq![s[i - 1]]
        } else {
            Seq::empty()
        }
    }
}

/// The `n`-th piece (counting from zero) of `s` split at every `/`, where
/// there are that many pieces.
pub open spec fn nth_segment(s: Seq<char>, n: nat) -> Option<Seq<char>> {
    if slashes(s) >= n {
        Some(segment_chars(s, n, s.len() as int))
    } else {
        None
    }
}

/// Reads the `n`-th piece (counting from zero) of `s` split at every `/`.
pub fn path_segment(s: &str, n: usize) -> (r: Option<String>)
    ensures
        opt_text(r) == nth_segment(s@, n as nat),
{
    let len = s.unicode_len();
    let mut count: usize = 0;
    let mut out = String::new();
    let mut i: usize = 0;
    while i < len
        invariant
            len == s@.len(),
            0 <= i <= len,
            count <= i,
            count == slashes(s@.take(i as int)),
            out@ == segment_chars(s@, n as nat, i as int),
        decreases len - i,
    {
        proof {
            assert(s@.take(i + 1).drop_last() =~= s@.take(i as int));
        }
        let c = s.get_char(i);
        if c == '/' {
            count = count + 1;
        } else if count == n {
            let piece = s.substring_char(i, i + 1);
            proof {
                assert(piece@ =~= seq![s@[i as int]]);
            }
            out.append(piece);
        }
        i = i + 1;
    }
    proof {
        assert(s@.take(len as int) =~= s@);
    }
    if count >= n {
        Some(out)
    } else {
        None
    }
}

/// The author that raw name, photo and badge fragments describe: none where
/// the name, the avatar url or the channel segment of that url is missing.
/// The channel id is the fifth `/`-separated piece of the avatar url.
pub open spec fn author_of(name: Option<Json>, photo: Option<Json>, badges: Option<Json>) -> Option<
    AuthorView,
> {
    let n = text_of(key_of(name, "simpleText"@));
    let img = thumb_url(photo);
    if n is Some && img is Some && nth_segment(img->0, 4) is Some {
        let id = nth_segment(img->0, 4)->0;
        let b = badges_of(badges);
        Some(
            AuthorView {
                name: n->0,
                channel_id: id,
                channel_url: "https://www.youtube.com/channel/"@ + id,
                image_url: img->0,
                badge_url: b.url,
                is_verified: b.verified,
                is_chat_owner: b.owner,
                is_chat_sponsor: b.sponsor,
                is_chat_moderator: b.moderator,
            },
        )
    } else {
        None
    }
}

/// Reads an author from raw name, photo and badge fragments.
pub fn parse_author(name: Option<&Json>, photo: Option<&Json>, badges: Option<&Json>) -> (r:
    Option<Author>)
    ensures
        r matches Some(a) ==> author_of(deref_opt(name), deref_opt(photo), deref_opt(badges))
            == Some(a@),
        r is None ==> author_of(deref_opt(name), deref_opt(photo), deref_opt(badges)) is None,
{
    let n = match text(member(name, "simpleText")) {
        Some(n) => n,
        None => return None,
    };
    let image_url = match thumbnail_url(photo) {
        Some(u) => u,
        None => return None,
    };
    let channel_id = match path_segment(image_url.as_str(), 4) {
        Some(c) => c,
        None => return None,
    };
    let mut channel_url = String::from_str("https://www.youtube.com/channel/");
    channel_url.append(channel_id.as_str());
    let (badge_url, is_verified, is_chat_owner, is_chat_sponsor, is_chat_moderator) = read_badges(
        badges,
    );
    Some(
        Author {
            name: n,
            channel_id,
            channel_url,
            image_url,
            badge_url,
            is_verified,
            is_chat_owner,
            is_chat_sponsor,
            is_chat_moderator,
        },
    )
}

} // verus!
