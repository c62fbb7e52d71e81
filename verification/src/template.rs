//! The vector template and its three slots.
//!
//! A template is text in which `{count}`, `{title}` and `{screenshot}` mark
//! the places of the player count, the game's title and the thumbnail. A
//! doubled brace, `{{` or `}}`, stands for a single one. Everything else is
//! copied as it stands, and what is put into a slot is not read again.

use crate::text::{chars_of, occurs_at, starts_at};
use vstd::prelude::*;
use vstd::string::{StrSliceExecFns, StringExecFns};

verus! {

/// What goes into the slots of a template.
pub struct Slots {
    pub count: Seq<char>,
    pub title: Seq<char>,
    pub screenshot: Seq<char>,
}

/// `{{`, which stands for one opening brace.
pub open spec fn doubled_open() -> Seq<char> {
    seq!['{', '{']
}

/// `}}`, which stands for one closing brace.
pub open spec fn doubled_close() -> Seq<char> {
    seq!['}', '}']
}

/// `{count}`, the slot of the player count.
pub open spec fn count_slot() -> Seq<char> {
    seq!['{', 'c', 'o', 'u', 'n', 't', '}']
}

/// `{title}`, the slot of the game's title.
pub open spec fn title_slot() -> Seq<char> {
    seq!['{', 't', 'i', 't', 'l', 'e', '}']
}

/// `{screenshot}`, the slot of the thumbnail.
pub open spec fn screenshot_slot() -> Seq<char> {
    seq!['{', 's', 'c', 'r', 'e', 'e', 'n', 's', 'h', 'o', 't', '}']
}

/// What the template yields at index `at`, and how many of its characters
/// that takes up.
pub open spec fn token_at(template: Seq<char>, slots: Slots, at: int) -> (Seq<char>, int) {
    if occurs_at(template, doubled_open(), at) {
        (seq!['{'], 2)
    } else if occurs_at(template, doubled_close(), at) {
        (seq!['}'], 2)
    } else if occurs_at(template, count_slot(), at) {
        (slots.count, 7)
    } else if occurs_at(template, title_slot(), at) {
        (slots.title, 7)
    } else if occurs_at(template, screenshot_slot(), at) {
        (slots.screenshot, 12)
    } else {
        (seq![template[at]], 1)
    }
}

/// The template from index `at` on, with its slots filled.
pub open spec fn fill_from(template: Seq<char>, slots: Slots, at: int) -> Seq<char>
    decreases template.len() - at,
{
    if at < 0 || at >= template.len() {
        Seq::empty()
    } else {
        let (out, used) = token_at(template, slots, at);
        out + fill_from(template, slots, at + used)
    }
}

/// The template with its slots filled.
pub open spec fn fill(template: Seq<char>, slots: Slots) -> Seq<char> {
    fill_from(template, slots, 0)
}

/// Whether a character is a brace.
pub open spec fn is_brace(c: char) -> bool {
    c == '{' || c == '}'
}

/// A needle does not stand where one of its characters differs from the
/// text.
proof fn lemma_differs(hay: Seq<char>, needle: Seq<char>, at: int, i: int)
    requires
        0 <= at,
        0 <= i < needle.len(),
        at + i < hay.len() ==> hay[at + i] != needle[i],
    ensures
        !occurs_at(hay, needle, at),
{
    if occurs_at(hay, needle, at) {
        assert(hay.subrange(at, at + needle.len())[i] == needle[i]);
    }
}

/// A template without braces has no slot: from any index on it is filled
/// by copying.
pub proof fn lemma_fill_plain(template: Seq<char>, slots: Slots, at: int)
    requires
        0 <= at <= template.len(),
        forall|i: int| 0 <= i < template.len() ==> !is_brace(#[trigger] template[i]),
    ensures
        fill_from(template, slots, at) == template.skip(at),
    decreases template.len() - at,
{
    if at < template.len() {
        lemma_differs(template, doubled_open(), at, 0);
        lemma_differs(template, doubled_close(), at, 0);
        lemma_differs(template, count_slot(), at, 0);
        lemma_differs(template, title_slot(), at, 0);
        lemma_differs(template, screenshot_slot(), at, 0);
        lemma_fill_plain(template, slots, at + 1);
        assert(seq![template[at]] + template.skip(at + 1) =~= template.skip(at));
    } else {
        assert(template.skip(at) =~= Seq::empty());
    }
}

/// A slot alone is replaced by what goes into it, whatever that holds:
/// the title is put in as it is, braces and markup included, and is not
/// read for slots again.
pub proof fn lemma_fill_lone_slot(slots: Slots)
    ensures
        fill(title_slot(), slots) == slots.title,
        fill(count_slot(), slots) == slots.count,
        fill(screenshot_slot(), slots) == slots.screenshot,
{
    let count = count_slot();
    assert(count.subrange(0, 7) =~= count);
    lemma_differs(count, doubled_open(), 0, 1);
    lemma_differs(count, doubled_close(), 0, 0);
    assert(fill_from(count, slots, 7) =~= Seq::empty());

    let title = title_slot();
    assert(title.subrange(0, 7) =~= title);
    lemma_differs(title, doubled_open(), 0, 1);
    lemma_differs(title, doubled_close(), 0, 0);
    lemma_differs(title, count_slot(), 0, 1);
    assert(fill_from(title, slots, 7) =~= Seq::empty());

    let screenshot = screenshot_slot();
    assert(screenshot.subrange(0, 12) =~= screenshot);
    lemma_differs(screenshot, doubled_open(), 0, 1);
    lemma_differs(screenshot, doubled_close(), 0, 0);
    lemma_differs(screenshot, count_slot(), 0, 1);
    lemma_differs(screenshot, title_slot(), 0, 1);
    assert(fill_from(screenshot, slots, 12) =~= Seq::empty());
}

/// Fills the three slots of `template`.
pub fn compose(template: &str, count: &str, title: &str, screenshot: &str) -> (scene: String)
    ensures
        scene@ == fill(
            template@,
            Slots { count: count@, title: title@, screenshot: screenshot@ },
        ),
{
    let ghost slots = Slots { count: count@, title: title@, screenshot: screenshot@ };
    proof {
        reveal_strlit("{{");
        reveal_strlit("}}");
        reveal_strlit("{count}");
        reveal_strlit("{title}");
        reveal_strlit("{screenshot}");
        reveal_strlit("{");
        reveal_strlit("}");
    }
    let t = chars_of(template);
    let open2 = chars_of("{{");
    let close2 = chars_of("}}");
    let count_mark = chars_of("{count}");
    let title_mark = chars_of("{title}");
    let screenshot_mark = chars_of("{screenshot}");

    let mut scene = String::new();
    let mut run: usize = 0;
    let mut at: usize = 0;
    while at < t.len()
        invariant
            run <= at <= t.len(),
            t@ == template@,
            open2@ == doubled_open(),
            close2@ == doubled_close(),
            count_mark@ == count_slot(),
            title_mark@ == title_slot(),
            screenshot_mark@ == screenshot_slot(),
            "{"@ == seq!['{'],
            "}"@ == seq!['}'],
            slots == (Slots { count: count@, title: title@, screenshot: screenshot@ }),
            scene@ + t@.subrange(run as int, at as int) + fill_from(t@, slots, at as int)
                == fill_from(t@, slots, 0),
        decreases t.len() - at,
    {
        let ghost before = scene@;
        let ghost pending = t@.subrange(run as int, at as int);
        let ghost rest = fill_from(t@, slots, at as int);
        if starts_at(t.as_slice(), open2.as_slice(), at) {
            scene.append(template.substring_char(run, at));
            scene.append("{");
            at += 2;
            run = at;
        } else if starts_at(t.as_slice(), close2.as_slice(), at) {
            scene.append(template.substring_char(run, at));
            scene.append("}");
            at += 2;
            run = at;
        } else if starts_at(t.as_slice(), count_mark.as_slice(), at) {
            scene.append(template.substring_char(run, at));
            scene.append(count);
            at += 7;
            run = at;
        } else if starts_at(t.as_slice(), title_mark.as_slice(), at) {
            scene.append(template.substring_char(run, at));
            scene.append(title);
            at += 7;
            run = at;
        } else if starts_at(t.as_slice(), screenshot_mark.as_slice(), at) {
            scene.append(template.substring_char(run, at));
            scene.append(screenshot);
            at += 12;
            run = at;
        } else {
            at += 1;
        }
        assert(scene@ + t@.subrange(run as int, at as int) + fill_from(t@, slots, at as int)
            =~= before + pending + rest);
    }
    scene.append(template.substring_char(run, at));
    scene
}

} // verus!
