//! History entries, what the clipboard shows, and the plans by which
//! formatters record and restore content.
use vstd::prelude::*;
use vstd::utf8::{encode_utf8, is_char_boundary};

use crate::text::{
    byte_len, byte_prefix, chars_within_bytes, newlines_to_spaces,
    replace_newlines,
};
use crate::types::{content_type_named, ContentType};

verus! {

/// The text inside an optional `String`.
pub open spec fn opt_text(o: Option<String>) -> Option<Seq<char>> {
    match o {
        Some(s) => Some(s@),
        None => None,
    }
}

/// The bytes inside an optional byte vector.
pub open spec fn opt_bytes(o: Option<Vec<u8>>) -> Option<Seq<u8>> {
    match o {
        Some(v) => Some(v@),
        None => None,
    }
}

/// One item of the clipboard history.
#[derive(Debug, Clone, PartialEq, Eq)]
pub struct HistoryEntry {
    pub content_type: ContentType,
    pub text_content: Option<String>,
    pub image_blob: Option<Vec<u8>>,
}

/// A history entry as plain values.
pub ghost struct EntryView {
    pub content_type: ContentType,
    pub text: Option<Seq<char>>,
    pub image: Option<Seq<u8>>,
}

impl View for HistoryEntry {
    type V = EntryView;

    open spec fn view(&self) -> EntryView {
        EntryView {
            content_type: self.content_type,
            text: opt_text(self.text_content),
            image: opt_bytes(self.image_blob),
        }
    }
}

/// What a history list shows for an entry: a line of text or a small PNG image.
#[derive(Debug, Clone, PartialEq, Eq)]
pub enum PreviewContent {
    Text(String),
    Image(Vec<u8>),
}

/// A preview as plain values.
pub ghost enum PreviewView {
    Text(Seq<char>),
    Image(Seq<u8>),
}

impl View for PreviewContent {
    type V = PreviewView;

    open spec fn view(&self) -> PreviewView {
        match self {
            PreviewContent::Text(s) => PreviewView::Text(s@),
            PreviewContent::Image(b) => PreviewView::Image(b@),
        }
    }
}

/// An image read from the clipboard: `width` by `height` RGBA pixels.
#[derive(Debug, Clone, PartialEq, Eq)]
pub struct ClipboardImage {
    pub width: usize,
    pub height: usize,
    pub bytes: Vec<u8>,
}

/// A clipboard image as plain values.
pub ghost struct ImageView {
    pub width: usize,
    pub height: usize,
    pub bytes: Seq<u8>,
}

impl View for ClipboardImage {
    type V = ImageView;

    open spec fn view(&self) -> ImageView {
        ImageView { width: self.width, height: self.height, bytes: self.bytes@ }
    }
}

/// The optional image as plain values.
pub open spec fn opt_image(o: Option<ClipboardImage>) -> Option<ImageView> {
    match o {
        Some(i) => Some(i@),
        None => None,
    }
}

/// What the clipboard showed on one look: its text and its image, each `None`
/// when the clipboard could not give one.
#[derive(Debug, Clone, PartialEq, Eq)]
pub struct ClipboardSnapshot {
    pub text: Option<String>,
    pub image: Option<ClipboardImage>,
}

/// A clipboard snapshot as plain values.
pub ghost struct SnapshotView {
    pub text: Option<Seq<char>>,
    pub image: Option<ImageView>,
}

impl View for ClipboardSnapshot {
    type V = SnapshotView;

    open spec fn view(&self) -> SnapshotView {
        SnapshotView { text: opt_text(self.text), image: opt_image(self.image) }
    }
}

/// What a formatter remembers of the content it recorded last.
#[derive(Debug, Clone, PartialEq, Eq)]
pub enum Memo {
    /// The fingerprint of a text.
    Fingerprint(String),
    /// The hash of an image's pixels.
    ImageHash(u64),
}

/// A memo as plain values.
pub ghost enum MemoView {
    Fingerprint(Seq<char>),
    ImageHash(u64),
}

impl View for Memo {
    type V = MemoView;

    open spec fn view(&self) -> MemoView {
        match self {
            Memo::Fingerprint(s) => MemoView::Fingerprint(s@),
            Memo::ImageHash(h) => MemoView::ImageHash(*h),
        }
    }
}

/// What a formatter does with what the clipboard shows.
#[derive(Debug, Clone, PartialEq, Eq)]
pub enum SavePlan {
    /// Nothing to record: the save reports `false`.
    Skip,
    /// The content is the one recorded last: the save reports `true` and records nothing.
    Unchanged,
    /// Record `entry`; once it is stored, remember `memo` and report `true`.
    Record { entry: HistoryEntry, memo: Memo },
    /// The clipboard text could not be read: the save fails.
    Unreadable,
}

/// A save plan as plain values.
pub ghost enum SaveView {
    Skip,
    Unchanged,
    Record { entry: EntryView, memo: MemoView },
    Unreadable,
}

impl View for SavePlan {
    type V = SaveView;

    open spec fn view(&self) -> SaveView {
        match self {
            SavePlan::Skip => SaveView::Skip,
            SavePlan::Unchanged => SaveView::Unchanged,
            SavePlan::Record { entry, memo } => SaveView::Record { entry: entry@, memo: memo@ },
            SavePlan::Unreadable => SaveView::Unreadable,
        }
    }
}

/// What restoring an entry to the clipboard takes.
#[derive(Debug, Clone, PartialEq, Eq)]
pub enum RestorePlan {
    /// This formatter cannot restore the entry: the restore reports `false`.
    Nothing,
    /// Put this text on the clipboard, then report `true`.
    SetText(String),
    /// Put this image on the clipboard; once it is there, remember `hash` and report `true`.
    SetImage { width: usize, height: usize, pixels: Vec<u8>, hash: u64 },
    /// The stored image does not decode: the restore fails.
    Undecodable,
}

/// A restore plan as plain values.
pub ghost enum RestoreView {
    Nothing,
    SetText(Seq<char>),
    SetImage { width: usize, height: usize, pixels: Seq<u8>, hash: u64 },
    Undecodable,
}

impl View for RestorePlan {
    type V = RestoreView;

    open spec fn view(&self) -> RestoreView {
        match self {
            RestorePlan::Nothing => RestoreView::Nothing,
            RestorePlan::SetText(s) => RestoreView::SetText(s@),
            RestorePlan::SetImage { width, height, pixels, hash } => RestoreView::SetImage {
                width: *width,
                height: *height,
                pixels: pixels@,
                hash: *hash,
            },
            RestorePlan::Undecodable => RestoreView::Undecodable,
        }
    }
}

/// The content type of a stored row: the one its stored name names, or text
/// when the name is unknown.
pub open spec fn stored_content_type_of(raw: Seq<char>) -> ContentType {
    match content_type_named(raw) {
        Some(c) => c,
        None => ContentType::Text,
    }
}

/// The content type that a stored row holds, read from its stored name.
pub fn stored_content_type(raw: &str) -> (r: ContentType)
    ensures
        r == stored_content_type_of(raw@),
{
    match ContentType::from_str(raw) {
        Some(c) => c,
        None => ContentType::Text,
    }
}

/// What a list of pinned items shows for an entry that holds no text.
pub open spec fn binary_placeholder() -> Seq<char> {
    "[Binary/Image Data]"@
}

/// The one-line summary of a pinned item: its text (or the binary placeholder),
/// cut to its first 47 bytes and `"..."` when it takes more than 50 bytes, with
/// line feeds shown as spaces.
pub open spec fn pinned_summary_of(text: Seq<char>) -> Seq<char> {
    if byte_len(text) > 50 {
        newlines_to_spaces(text.take(chars_within_bytes(text, 47) as int) + "..."@)
    } else {
        newlines_to_spaces(text)
    }
}

/// The text that a list of pinned items shows for an entry.
pub open spec fn pinned_display_text(text: Option<Seq<char>>) -> Seq<char> {
    match text {
        Some(t) => t,
        None => binary_placeholder(),
    }
}

/// Whether the summary of a pinned item can be cut at its 47th byte: true unless
/// the text is longer than 50 bytes and that byte falls inside a character.
pub open spec fn pinned_summary_defined(text: Option<Seq<char>>) -> bool {
    byte_len(pinned_display_text(text)) > 50 ==> is_char_boundary(
        encode_utf8(pinned_display_text(text)),
        47,
    )
}

/// The one-line summary under which a pinned item is listed.
pub fn pinned_summary(text: Option<&str>) -> (r: String)
    requires
        pinned_summary_defined(
            match text {
                Some(t) => Some(t@),
                None => None,
            },
        ),
    ensures
        r@ == pinned_summary_of(
            pinned_display_text(
                match text {
                    Some(t) => Some(t@),
                    None => None,
                },
            ),
        ),
{
    let display: &str = match text {
        Some(t) => t,
        None => "[Binary/Image Data]",
    };
    if display.as_bytes().len() > 50 {
        let mut cut = byte_prefix(display, 47);
        cut.append("...");
        replace_newlines(cut.as_str())
    } else {
        replace_newlines(display)
    }
}

/// How a change of pin status went.
#[derive(Debug, Clone, Copy, PartialEq, Eq, Structural)]
pub enum PinReport {
    Pinned,
    Unpinned,
    NotFound,
}

/// The report on setting the pin status of an entry, given how many rows changed.
pub fn pin_report(rows_updated: usize, pin_status: bool) -> (r: PinReport)
    ensures
        r == (if rows_updated == 0 {
            PinReport::NotFound
        } else if pin_status {
            PinReport::Pinned
        } else {
            PinReport::Unpinned
        }),
{
    if rows_updated > 0 {
        if pin_status {
            PinReport::Pinned
        } else {
            PinReport::Unpinned
        }
    } else {
        PinReport::NotFound
    }
}


/// The optional borrowed image as plain values.
pub open spec fn opt_image_ref(o: Option<&ClipboardImage>) -> Option<ImageView> {
    match o {
        Some(i) => Some(i@),
        None => None,
    }
}

/// The text inside an optional string slice.
pub open spec fn opt_str(o: Option<&str>) -> Option<Seq<char>> {
    match o {
        Some(s) => Some(s@),
        None => None,
    }
}

/// A copy of a clipboard image.
pub fn copy_image(i: &ClipboardImage) -> (r: ClipboardImage)
    ensures
        r@ == i@,
{
    let bytes = i.bytes.clone();
    assert(bytes@ =~= i.bytes@);
    ClipboardImage { width: i.width, height: i.height, bytes }
}

} // verus!
