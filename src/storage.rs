//! The bounded history store: items are inserted at the front and the oldest
//! fall off the tail once the store holds `MAX_ITEMS` of them.

use std::time::SystemTime;
use vstd::prelude::*;

verus! {

/// The largest number of items the store keeps.
pub const MAX_ITEMS: usize = 50;

#[verifier::external_type_specification]
#[verifier::external_body]
pub struct ExSystemTime(SystemTime);

/// Relies on `SystemTime::now`: it returns the current wall-clock time, about
/// which nothing else can be promised.
pub assume_specification[ SystemTime::now ]() -> (r: SystemTime);

/// Relies on `SystemTime`'s `Clone`: the type is `Copy`, so a clone is the
/// same instant.
pub assume_specification[ <SystemTime as Clone>::clone ](t: &SystemTime) -> (r: SystemTime)
    ensures
        r == *t,
;

/// What was on the clipboard: text, or the raw pixel bytes of an image.
#[derive(Clone, Debug)]
pub enum ClipboardContent {
    Text(String),
    Image(Vec<u8>),
}

/// One recorded clipboard snapshot.
#[derive(Clone, Debug)]
pub struct ClipboardItem {
    pub content: ClipboardContent,
    pub timestamp: SystemTime,
}

/// The history, most recent first.
pub struct ClipboardStorage {
    items: Vec<ClipboardItem>,
}

/// The history that results from putting `item` in front of `items` and
/// dropping what lies beyond the capacity.
pub open spec fn added(items: Seq<ClipboardItem>, item: ClipboardItem) -> Seq<ClipboardItem> {
    let s = seq![item] + items;
    if s.len() > MAX_ITEMS as int {
        s.subrange(0, MAX_ITEMS as int)
    } else {
        s
    }
}

/// `after` is `before` with a new item of content `content` in front, the
/// capacity kept.
pub open spec fn added_content(
    before: Seq<ClipboardItem>,
    content: ClipboardContent,
    after: Seq<ClipboardItem>,
) -> bool {
    &&& after.len() > 0
    &&& after[0].content == content
    &&& after == added(before, after[0])
}

/// `hs` lists the histories that a run of `add` calls went through, one call
/// per element of `cs`: `hs[k + 1]` is `hs[k]` after adding `cs[k]`.
pub open spec fn add_run(hs: Seq<Seq<ClipboardItem>>, cs: Seq<ClipboardContent>) -> bool {
    &&& hs.len() == cs.len() + 1
    &&& forall|k: int| 0 <= k < cs.len() ==> #[trigger] added_content(hs[k], cs[k], hs[k + 1])
}

/// Whatever the history started from, after each call of `add` it holds at
/// most `MAX_ITEMS` items and the item just added comes first.
pub proof fn lemma_capacity(hs: Seq<Seq<ClipboardItem>>, cs: Seq<ClipboardContent>)
    requires
        add_run(hs, cs),
    ensures
        forall|k: int|
            0 <= k < cs.len() ==> #[trigger] hs[k + 1].len() <= MAX_ITEMS && hs[k + 1].len() > 0
                && hs[k + 1][0].content == cs[k],
{
    assert forall|k: int| 0 <= k < cs.len() implies #[trigger] hs[k + 1].len() <= MAX_ITEMS
        && hs[k + 1].len() > 0 && hs[k + 1][0].content == cs[k] by {
        assert(added_content(hs[k], cs[k], hs[k + 1]));
    }
}

/// Adding `cs` in order to an empty history leaves the last `MAX_ITEMS` of
/// them, most recent first; the older ones have been dropped.
pub proof fn lemma_eviction_order(hs: Seq<Seq<ClipboardItem>>, cs: Seq<ClipboardContent>)
    requires
        add_run(hs, cs),
        hs[0].len() == 0,
    ensures
        hs.last().len() == if cs.len() < MAX_ITEMS { cs.len() } else { MAX_ITEMS as nat },
        forall|j: int| 0 <= j < hs.last().len() ==> #[trigger] hs.last()[j].content == cs[cs.len() - 1 - j],
    decreases cs.len(),
{
    if cs.len() > 0 {
        let n = cs.len() - 1;
        let hs0 = hs.take(n + 1);
        let cs0 = cs.take(n);
        assert forall|k: int| 0 <= k < cs0.len() implies #[trigger] added_content(hs0[k], cs0[k], hs0[k + 1]) by {
            assert(added_content(hs[k], cs[k], hs[k + 1]));
        }
        lemma_eviction_order(hs0, cs0);
        assert(hs0.last() == hs[n]);
        assert(added_content(hs[n], cs[n], hs[n + 1]));
        assert forall|j: int| 0 <= j < hs.last().len() implies #[trigger] hs.last()[j].content == cs[cs.len() - 1 - j] by {
            if j > 0 {
                assert(hs.last()[j] == hs[n][j - 1]);
                assert(cs0[cs0.len() - 1 - (j - 1)] == cs[cs.len() - 1 - j]);
            }
        }
    }
}

/// Two reads of the same history, with nothing changed between them, give
/// the same items in the same order.
pub proof fn lemma_snapshot_stable(s: ClipboardStorage, first: Seq<ClipboardItem>, second: Seq<ClipboardItem>)
    requires
        first == s@,
        second == s@,
    ensures
        first == second,
{
}

impl View for ClipboardStorage {
    type V = Seq<ClipboardItem>;

    closed spec fn view(&self) -> Seq<ClipboardItem> {
        self.items@
    }
}

impl ClipboardStorage {
    /// An empty history.
    pub fn new() -> (r: Self)
        ensures
            r@ == Seq::<ClipboardItem>::empty(),
    {
        ClipboardStorage { items: Vec::new() }
    }

    /// Records `content`, stamped with the current time, as the most recent
    /// item; drops the oldest item when the store would exceed its capacity.
    pub fn add(&mut self, content: ClipboardContent)
        ensures
            added_content(old(self)@, content, final(self)@),
            final(self)@.len() <= MAX_ITEMS,
    {
        let item = ClipboardItem { content, timestamp: SystemTime::now() };
        self.items.insert(0, item);
        if self.items.len() > MAX_ITEMS {
            self.items.truncate(MAX_ITEMS);
        }
        proof {
            assert(self.items@ == added(old(self)@, item));
        }
    }

    /// All items, most recent first.
    pub fn get_all(&self) -> (r: &[ClipboardItem])
        ensures
            r@ == self@,
    {
        self.items.as_slice()
    }

    /// Removes every item.
    pub fn clear(&mut self)
        ensures
            final(self)@ == Seq::<ClipboardItem>::empty(),
    {
        self.items.clear();
    }

    /// The number of items held.
    pub fn len(&self) -> (r: usize)
        ensures
            r == self@.len(),
    {
        self.items.len()
    }
}

} // verus!
