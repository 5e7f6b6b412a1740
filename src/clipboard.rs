//! The change detector: polls the system clipboard, decides whether what it
//! holds is a new history item, and writes chosen items back.

use crate::storage::{added_content, ClipboardContent, ClipboardItem, ClipboardStorage};
use arboard::Clipboard;
use std::collections::hash_map::DefaultHasher;
use std::hash::Hasher;
use vstd::prelude::*;
use vstd::std_specs::hash::DefaultHasherAdditionalSpecFns;

verus! {

#[verifier::external_type_specification]
#[verifier::external_body]
pub struct ExClipboard(arboard::Clipboard);

#[verifier::external_type_specification]
#[verifier::external_body]
pub struct ExClipboardFailure(arboard::Error);

/// Relies on `arboard::Clipboard::new`: it opens the system clipboard, or
/// fails where the platform offers none.
pub assume_specification[ arboard::Clipboard::new ]() -> (r: Result<
    arboard::Clipboard,
    arboard::Error,
>);

/// Relies on `arboard::Clipboard::get_text`: it reads the clipboard as text,
/// or fails when it holds none.
pub assume_specification[ arboard::Clipboard::get_text ](cb: &mut arboard::Clipboard) -> (r:
    Result<String, arboard::Error>);

/// Relies on `arboard::Clipboard::get_image`: it reads the clipboard as an
/// image and hands back its raw pixel bytes, or fails when it holds none.
#[verifier::external_body]
fn read_image(cb: &mut Clipboard) -> (r: Result<Vec<u8>, arboard::Error>) {
    match cb.get_image() {
        Ok(image) => Ok(image.bytes.into_owned()),
        Err(e) => Err(e),
    }
}

/// Relies on `arboard::Clipboard::set_text`: it places `text` on the
/// clipboard, or fails. A text placed there becomes the monitor's record of
/// the last text written; nothing else of the monitor changes.
#[verifier::external_body]
fn write_text(m: &mut ClipboardMonitor, text: &String) -> (r: Result<(), arboard::Error>)
    ensures
        final(m).state == old(m).state,
        r is Ok ==> final(m).written@ == Some(text@),
        r is Err ==> final(m).written == old(m).written,
{
    m.clipboard.set_text(text.as_str())
}

/// Relies on the variants of `arboard::Error`: each is carried over to the
/// variant of the same name.
#[verifier::external_body]
fn error_kind(e: arboard::Error) -> (r: ClipboardError) {
    match e {
        arboard::Error::ContentNotAvailable => ClipboardError::ContentNotAvailable,
        arboard::Error::ClipboardNotSupported => ClipboardError::ClipboardNotSupported,
        arboard::Error::ClipboardOccupied => ClipboardError::ClipboardOccupied,
        arboard::Error::ConversionFailure => ClipboardError::ConversionFailure,
        arboard::Error::Unknown { description } => ClipboardError::Unknown(description),
        _ => ClipboardError::Unknown(String::new()),
    }
}

/// Why the system clipboard could not be used.
#[derive(Debug)]
pub enum ClipboardError {
    /// The clipboard was empty or held no content of the kind asked for.
    ContentNotAvailable,
    /// The platform offers no such clipboard.
    ClipboardNotSupported,
    /// Another party holds the clipboard.
    ClipboardOccupied,
    /// The content could not be converted.
    ConversionFailure,
    /// Any other failure, with its description.
    Unknown(String),
}

/// The fingerprint of an image's pixel bytes: the standard hasher's digest
/// of the bytes written to it in one piece.
pub open spec fn image_fingerprint(bytes: Seq<u8>) -> u64 {
    DefaultHasher::spec_finish(seq![bytes])
}

/// Computes `image_fingerprint` of `bytes`.
pub fn hash_image(bytes: &[u8]) -> (r: u64)
    ensures
        r == image_fingerprint(bytes@),
{
    let mut hasher = DefaultHasher::new();
    hasher.write(bytes);
    assert(hasher@ == seq![bytes@]);
    hasher.finish()
}

/// `c` is the text `t`.
pub open spec fn is_text(c: ClipboardContent, t: Seq<char>) -> bool {
    match c {
        ClipboardContent::Text(s) => s@ == t,
        ClipboardContent::Image(_) => false,
    }
}

/// Some item of `items` is the text `t`.
pub open spec fn holds_text(items: Seq<ClipboardItem>, t: Seq<char>) -> bool {
    exists|i: int| 0 <= i < items.len() && #[trigger] is_text(items[i].content, t)
}

fn stored_text(items: &[ClipboardItem], text: &String) -> (r: bool)
    ensures
        r == holds_text(items@, text@),
{
    let mut i: usize = 0;
    while i < items.len()
        invariant
            i <= items@.len(),
            forall|j: int| 0 <= j < i ==> !#[trigger] is_text(items@[j].content, text@),
        decreases items@.len() - i,
    {
        match &items[i].content {
            ClipboardContent::Text(t) => {
                if *t == *text {
                    assert(is_text(items@[i as int].content, text@));
                    return true;
                }
            },
            ClipboardContent::Image(_) => {},
        }
        i = i + 1;
    }
    false
}

/// What the detector last saw on the clipboard, per kind of content.
pub struct MonitorState {
    pub last_text: Option<String>,
    pub last_image_hash: Option<u64>,
}

impl MonitorState {
    /// The last text seen is `t`.
    pub open spec fn last_text_is(self, t: Seq<char>) -> bool {
        self.last_text matches Some(s) && s@ == t
    }
}

/// A text `t` read from the clipboard, which differs from the last text seen,
/// took the detector from `s0` to `s1` and the history from `h0` to `h1`: it
/// is now the last text seen, and it was recorded unless the history already
/// held it.
pub open spec fn text_observed(
    s0: MonitorState,
    h0: Seq<ClipboardItem>,
    t: String,
    s1: MonitorState,
    h1: Seq<ClipboardItem>,
) -> bool {
    &&& !s0.last_text_is(t@)
    &&& s1.last_text == Some(t)
    &&& s1.last_image_hash == s0.last_image_hash
    &&& if holds_text(h0, t@) {
        h1 == h0
    } else {
        added_content(h0, ClipboardContent::Text(t), h1)
    }
}

/// An image of pixel bytes `b` read from the clipboard, whose fingerprint
/// differs from the last one seen, took the detector from `s0` to `s1` and the
/// history from `h0` to `h1`: its fingerprint is now the last seen, and it was
/// recorded.
pub open spec fn image_observed(
    s0: MonitorState,
    h0: Seq<ClipboardItem>,
    b: Vec<u8>,
    s1: MonitorState,
    h1: Seq<ClipboardItem>,
) -> bool {
    &&& s0.last_image_hash != Some(image_fingerprint(b@))
    &&& s1.last_image_hash == Some(image_fingerprint(b@))
    &&& s1.last_text == s0.last_text
    &&& added_content(h0, ClipboardContent::Image(b), h1)
}

/// One poll took the detector from `s0` to `s1` and the history from `h0` to
/// `h1`: nothing new was seen, or a new text, or a new image.
pub open spec fn tick_outcome(
    s0: MonitorState,
    h0: Seq<ClipboardItem>,
    s1: MonitorState,
    h1: Seq<ClipboardItem>,
) -> bool {
    ||| s1 == s0 && h1 == h0
    ||| exists|t: String| #[trigger] text_observed(s0, h0, t, s1, h1)
    ||| exists|b: Vec<u8>| #[trigger] image_observed(s0, h0, b, s1, h1)
}

/// After an image was recorded, an image whose fingerprint differs from it
/// is fresh, so `observe_image` records it too, whatever the history already
/// holds: images are never matched against the history.
pub proof fn lemma_changed_image_recorded(
    s0: MonitorState,
    h0: Seq<ClipboardItem>,
    first: Vec<u8>,
    s1: MonitorState,
    h1: Seq<ClipboardItem>,
    second: Seq<u8>,
)
    requires
        image_observed(s0, h0, first, s1, h1),
        image_fingerprint(second) != image_fingerprint(first@),
    ensures
        s1.last_image_hash != Some(image_fingerprint(second)),
{
}

impl MonitorState {
    /// A detector that has seen nothing yet.
    pub fn new() -> (r: Self)
        ensures
            r.last_text is None,
            r.last_image_hash is None,
    {
        MonitorState { last_text: None, last_image_hash: None }
    }

    /// Takes in `text`, read from the clipboard. When it differs from the
    /// last text seen, it becomes the last text seen and is recorded unless
    /// the history already holds it; the result says whether it differed.
    pub fn observe_text(&mut self, storage: &mut ClipboardStorage, text: String) -> (fresh: bool)
        ensures
            fresh == !old(self).last_text_is(text@),
            fresh ==> text_observed(*old(self), old(storage)@, text, *final(self), final(storage)@),
            !fresh ==> *final(self) == *old(self) && final(storage)@ == old(storage)@,
    {
        let same = match &self.last_text {
            Some(t) => *t == text,
            None => false,
        };
        if same {
            return false;
        }
        let already = stored_text(storage.get_all(), &text);
        self.last_text = Some(text.clone());
        if !already {
            storage.add(ClipboardContent::Text(text));
        }
        true
    }

    /// Takes in the pixel bytes of an image read from the clipboard. When
    /// their fingerprint differs from the last one seen, it becomes the last
    /// one seen and the image is recorded; the result says whether it
    /// differed.
    pub fn observe_image(&mut self, storage: &mut ClipboardStorage, bytes: Vec<u8>) -> (fresh: bool)
        ensures
            fresh == (old(self).last_image_hash != Some(image_fingerprint(bytes@))),
            fresh ==> image_observed(*old(self), old(storage)@, bytes, *final(self), final(storage)@),
            !fresh ==> *final(self) == *old(self) && final(storage)@ == old(storage)@,
    {
        let hash = hash_image(bytes.as_slice());
        let same = match self.last_image_hash {
            Some(h) => h == hash,
            None => false,
        };
        if same {
            return false;
        }
        self.last_image_hash = Some(hash);
        storage.add(ClipboardContent::Image(bytes));
        true
    }
}

/// The system clipboard, with what was last seen on it.
pub struct ClipboardMonitor {
    clipboard: Clipboard,
    state: MonitorState,
    written: Ghost<Option<Seq<char>>>,
}

impl ClipboardMonitor {
    /// What this monitor last saw on the clipboard.
    pub closed spec fn seen(&self) -> MonitorState {
        self.state
    }

    /// The last text this monitor placed on the clipboard, if any.
    pub closed spec fn last_written(&self) -> Option<Seq<char>> {
        self.written@
    }

    /// Opens the system clipboard, with nothing seen yet.
    pub fn new() -> (r: Result<Self, ClipboardError>)
        ensures
            r matches Ok(m) ==> m.seen().last_text is None && m.seen().last_image_hash is None
                && m.last_written() is None,
    {
        match Clipboard::new() {
            Ok(clipboard) => Ok(
                ClipboardMonitor { clipboard, state: MonitorState::new(), written: Ghost(None) },
            ),
            Err(e) => Err(error_kind(e)),
        }
    }

    /// One poll: text is read first and, when it differs from the last text
    /// seen, handled and nothing more is done; otherwise an image is read and
    /// handled. A read that fails counts as nothing seen.
    pub fn check_and_store(&mut self, storage: &mut ClipboardStorage) -> (r: Result<(), ClipboardError>)
        ensures
            r is Ok,
            tick_outcome(old(self).seen(), old(storage)@, final(self).seen(), final(storage)@),
            final(self).last_written() == old(self).last_written(),
    {
        match self.clipboard.get_text() {
            Ok(text) => {
                if self.state.observe_text(storage, text) {
                    return Ok(());
                }
            },
            Err(_) => {},
        }
        match read_image(&mut self.clipboard) {
            Ok(bytes) => {
                self.state.observe_image(storage, bytes);
            },
            Err(_) => {},
        }
        Ok(())
    }

    /// Runs one poll and says whether the history grew.
    pub fn poll_tick(&mut self, storage: &mut ClipboardStorage) -> (grew: bool)
        ensures
            grew == (final(storage)@.len() > old(storage)@.len()),
            tick_outcome(old(self).seen(), old(storage)@, final(self).seen(), final(storage)@),
            final(self).last_written() == old(self).last_written(),
    {
        let before = storage.len();
        let _ = self.check_and_store(storage);
        storage.len() > before
    }

    /// Puts `content` back on the clipboard. A text that was written becomes
    /// both the last text written and the last text seen; an image is not
    /// written back, and nothing is written in its place.
    pub fn set_clipboard(&mut self, content: &ClipboardContent) -> (r: Result<(), ClipboardError>)
        ensures
            match *content {
                ClipboardContent::Text(t) => {
                    &&& r is Ok ==> final(self).last_written() == Some(t@)
                    &&& r is Ok ==> final(self).seen().last_text == Some(t)
                    &&& r is Err ==> final(self).last_written() == old(self).last_written()
                    &&& r is Err ==> final(self).seen().last_text == old(self).seen().last_text
                    &&& final(self).seen().last_image_hash == old(self).seen().last_image_hash
                },
                ClipboardContent::Image(_) => {
                    &&& r is Ok
                    &&& final(self).seen() == old(self).seen()
                    &&& final(self).last_written() == old(self).last_written()
                },
            },
    {
        match content {
            ClipboardContent::Text(text) => {
                match write_text(self, text) {
                    Ok(()) => {
                        self.state.last_text = Some(text.clone());
                        Ok(())
                    },
                    Err(e) => Err(error_kind(e)),
                }
            },
            ClipboardContent::Image(_) => Ok(()),
        }
    }
}

/// The content of item `index` of the history, or nothing when the index
/// lies past its end.
pub fn paste_target(storage: &ClipboardStorage, index: usize) -> (r: Option<&ClipboardContent>)
    ensures
        index < storage@.len() ==> (r matches Some(c) && *c == storage@[index as int].content),
        index >= storage@.len() ==> r is None,
{
    let items = storage.get_all();
    if index < items.len() {
        Some(&items[index].content)
    } else {
        None
    }
}

/// Puts item `index` of the history back on the clipboard, through a monitor
/// of its own that is dropped afterwards; the content handed to
/// `set_clipboard` is what `paste_target` picks. An index past the end of
/// the history is ignored and the clipboard is not touched. The result says
/// whether an item was handed to the clipboard.
pub fn paste(storage: &ClipboardStorage, index: usize) -> (r: Result<bool, ClipboardError>)
    ensures
        index >= storage@.len() ==> r matches Ok(false),
        r matches Ok(handed) ==> handed == (index < storage@.len()),
{
    match paste_target(storage, index) {
        None => Ok(false),
        Some(content) => match ClipboardMonitor::new() {
            Ok(mut monitor) => match monitor.set_clipboard(content) {
                Ok(()) => Ok(true),
                Err(e) => Err(e),
            },
            Err(e) => Err(e),
        },
    }
}

} // verus!
