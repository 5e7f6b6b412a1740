//! What the history menu shows: a one-line label per item, for at most
//! `MENU_ITEMS_LIMIT` items.

use crate::storage::{ClipboardContent, ClipboardItem};
use vstd::prelude::*;

verus! {

broadcast use vstd::string::group_string_axioms;

/// The largest number of history items listed in the menu.
pub const MENU_ITEMS_LIMIT: usize = 25;

/// The number of characters of a text item shown before it is cut short.
pub const LABEL_CHARS: usize = 50;

/// Relies on `String::push`: it appends one character to the end of the string.
pub assume_specification[ String::push ](s: &mut String, ch: char)
    ensures
        final(s)@ == old(s)@.push(ch),
;

/// A line break shown as a space.
pub open spec fn flat_char(c: char) -> char {
    if c == '\n' || c == '\r' {
        ' '
    } else {
        c
    }
}

/// `s` on one line: every `\n` and `\r` replaced by a space.
pub open spec fn flattened(s: Seq<char>) -> Seq<char> {
    s.map_values(|c: char| flat_char(c))
}

/// The label of a text: its first `LABEL_CHARS` characters followed by
/// `...` when it is longer, with line breaks shown as spaces.
pub open spec fn text_label(s: Seq<char>) -> Seq<char> {
    if s.len() > LABEL_CHARS as int {
        flattened(s.take(LABEL_CHARS as int)) + seq!['.', '.', '.']
    } else {
        flattened(s)
    }
}

/// The label of an image.
pub open spec fn image_label() -> Seq<char> {
    seq!['[', 'I', 'm', 'a', 'g', 'e', ']']
}

/// The label shown for an item of content `c`.
pub open spec fn label_of(c: ClipboardContent) -> Seq<char> {
    match c {
        ClipboardContent::Text(t) => text_label(t@),
        ClipboardContent::Image(_) => image_label(),
    }
}

fn text_preview(text: &String) -> (r: String)
    ensures
        r@ == text_label(text@),
{
    let mut out = String::new();
    let mut count: usize = 0;
    let mut cut = false;
    for c in it: text.chars()
        invariant_except_break
            count == it.index(),
        invariant
            count <= LABEL_CHARS,
            it.seq() == text@,
            out@ == flattened(text@.take(count as int)),
            cut ==> text@.len() > LABEL_CHARS && count == LABEL_CHARS,
        ensures
            cut || count == text@.len(),
    {
        if count == LABEL_CHARS {
            cut = true;
            break;
        }
        out.push(if c == '\n' || c == '\r' { ' ' } else { c });
        count = count + 1;
        assert(text@.take(count as int) == text@.take(count - 1).push(c));
    }
    if cut {
        out.push('.');
        out.push('.');
        out.push('.');
    } else {
        assert(text@.take(count as int) == text@);
    }
    out
}

/// The menu label of `item`: text as `text_label` gives it, an image as
/// `[Image]`.
pub fn format_item_label(item: &ClipboardItem, _index: usize) -> (r: String)
    ensures
        r@ == label_of(item.content),
{
    match &item.content {
        ClipboardContent::Text(text) => text_preview(text),
        ClipboardContent::Image(_) => {
            let mut s = String::new();
            s.push('[');
            s.push('I');
            s.push('m');
            s.push('a');
            s.push('g');
            s.push('e');
            s.push(']');
            s
        },
    }
}

/// The number of items the menu lists for a history of `n` items.
pub open spec fn shown_count(n: int) -> int {
    if n < MENU_ITEMS_LIMIT as int {
        n
    } else {
        MENU_ITEMS_LIMIT as int
    }
}

/// The labels of the items the menu lists, in history order: one for each of
/// the first `MENU_ITEMS_LIMIT` items. An empty result means the menu shows
/// that there is no history.
pub fn menu_labels(items: &[ClipboardItem]) -> (r: Vec<String>)
    ensures
        r@.len() == shown_count(items@.len() as int),
        forall|i: int| 0 <= i < r@.len() ==> #[trigger] r@[i]@ == label_of(items@[i].content),
{
    let n: usize = if items.len() < MENU_ITEMS_LIMIT {
        items.len()
    } else {
        MENU_ITEMS_LIMIT
    };
    let mut labels: Vec<String> = Vec::new();
    let mut i: usize = 0;
    while i < n
        invariant
            n == shown_count(items@.len() as int),
            i <= n,
            labels@.len() == i,
            forall|j: int| 0 <= j < i ==> #[trigger] labels@[j]@ == label_of(items@[j].content),
        decreases n - i,
    {
        labels.push(format_item_label(&items[i], i));
        i = i + 1;
    }
    labels
}

} // verus!
