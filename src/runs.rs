use vstd::prelude::*;
use crate::json::{
    Json, deref_opt, element, idx_of, items_of, key_of, member, text, text_of, text_or_default,
    text_or_empty,
};
use crate::model::{Emoji, EmojiView, MessageRun, MessageRunView, plain_text, runs_view};

verus! {

/// The run that one raw run describes: a text run where it holds a text,
/// else an emoji run where it holds an emoji, else none.
pub open spec fn run_of(run: Json) -> Option<MessageRunView> {
    match text_of(key_of(Some(run), "text"@)) {
        Some(t) => Some(MessageRunView { text: Some(t), emoji: None }),
        None => match key_of(Some(run), "emoji"@) {
            Some(e) => Some(
                MessageRunView {
                    text: None,
                    emoji: Some(
                        EmojiView {
                            id: text_or_empty(key_of(Some(e), "emojiId"@)),
                            txt: text_or_empty(idx_of(key_of(Some(e), "shortcuts"@), 0)),
                            url: text_or_empty(
                                key_of(
                                    idx_of(key_of(key_of(Some(e), "image"@), "thumbnails"@), 0),
                                    "url"@,
                                ),
                            ),
                        },
                    ),
                },
            ),
            None => None,
        },
    }
}

/// The runs described by the first `n` raw runs, in order.
pub open spec fn runs_prefix(items: Seq<Json>, n: int) -> Seq<MessageRunView>
    decreases n,
{
    if n <= 0 {
        Seq::empty()
    } else {
        let prev = runs_prefix(items, n - 1);
        match run_of(items[n - 1]) {
            Some(v) => prev.push(v),
            None => prev,
        }
    }
}

/// The runs that a raw run list describes; nothing where it is not a list.
pub open spec fn runs_of(runs: Option<Json>) -> Seq<MessageRunView> {
    match items_of(runs) {
        Some(items) => runs_prefix(items, items.len() as int),
        None => Seq::empty(),
    }
}

/// Every run read from a raw run list carries exactly one of text and emoji.
pub proof fn lemma_runs_well_shaped(runs: Option<Json>)
    ensures
        forall|i: int| 0 <= i < runs_of(runs).len() ==> (#[trigger] runs_of(runs)[i]).well_shaped(),
{
    if let Some(items) = items_of(runs) {
        lemma_prefix_well_shaped(items, items.len() as int);
    }
}

proof fn lemma_prefix_well_shaped(items: Seq<Json>, n: int)
    ensures
        forall|i: int|
            0 <= i < runs_prefix(items, n).len() ==> (#[trigger] runs_prefix(items, n)[i]).well_shaped(),
    decreases n,
{
    if n > 0 {
        lemma_prefix_well_shaped(items, n - 1);
        let prev = runs_prefix(items, n - 1);
        if let Some(v) = run_of(items[n - 1]) {
            assert(v.well_shaped());
            assert(runs_prefix(items, n) == prev.push(v));
            assert forall|i: int| 0 <= i < prev.len() + 1 implies (#[trigger] prev.push(v)[i]).well_shaped() by {
                if i < prev.len() {
                    assert(prev.push(v)[i] == prev[i]);
                }
            }
        }
    }
}

/// Reads one raw run.
fn parse_run(run: &Json) -> (r: Option<MessageRun>)
    ensures
        r matches Some(m) ==> run_of(*run) == Some(m@),
        r is None ==> run_of(*run) is None,
{
    let j = Some(run);
    match text(member(j, "text")) {
        Some(t) => Some(MessageRun { text: Some(t), emoji: None }),
        None => match member(j, "emoji") {
            Some(e) => {
                let e = Some(e);
                let id = text_or_default(member(e, "emojiId"));
                let txt = text_or_default(element(member(e, "shortcuts"), 0));
                let url = text_or_default(
                    member(element(member(member(e, "image"), "thumbnails"), 0), "url"),
                );
                Some(MessageRun { text: None, emoji: Some(Emoji { id, txt, url }) })
            },
            None => None,
        },
    }
}

/// Reads a raw run list into message runs, keeping their order and dropping
/// runs that hold neither text nor emoji.
pub fn parse_message_runs(runs: Option<&Json>) -> (r: Vec<MessageRun>)
    ensures
        runs_view(r@) == runs_of(deref_opt(runs)),
{
    let mut out: Vec<MessageRun> = Vec::new();
    match runs {
        Some(v) => match v.as_array() {
            Some(items) => {
                let mut i: usize = 0;
                while i < items.len()
                    invariant
                        0 <= i <= items@.len(),
                        items_of(deref_opt(runs)) == Some(items@),
                        runs_view(out@) == runs_prefix(items@, i as int),
                    decreases items@.len() - i,
                {
                    match parse_run(&items[i]) {
                        Some(m) => {
                            proof {
                                assert(runs_view(out@.push(m)) =~= runs_view(out@).push(m@));
                            }
                            out.push(m);
                        },
                        None => {},
                    }
                    i = i + 1;
                }
            },
            None => {},
        },
        None => {},
    }
    out
}

/// The plain text of a message: the text of every text run, in order.
pub fn join_text(runs: &Vec<MessageRun>) -> (r: String)
    ensures
        r@ == plain_text(runs_view(runs@)),
{
    let mut out = String::new();
    let mut i: usize = 0;
    while i < runs.len()
        invariant
            0 <= i <= runs@.len(),
            out@ == plain_text(runs_view(runs@).take(i as int)),
        decreases runs@.len() - i,
    {
        proof {
            assert(runs_view(runs@).take(i + 1).drop_last() =~= runs_view(runs@).take(i as int));
        }
        match &runs[i].text {
            Some(t) => out.append(t.as_str()),
            None => {},
        }
        i = i + 1;
    }
    proof {
        assert(runs_view(runs@).take(runs@.len() as int) =~= runs_view(runs@));
    }
    out
}

} // verus!
