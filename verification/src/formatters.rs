//! The formatters that the clipboard service uses to record clipboard content
//! and to restore recorded entries, and their registry.
//!
//! Each formatter remembers the content it recorded last, so that content which
//! stays on the clipboard is recorded once. The registry holds one formatter per
//! content type, in the order file, image, text.
use vstd::prelude::*;
use vstd::utf8::encode_utf8;

use crate::digest::{calculate_hash, fingerprint_text, pixel_hash, text_fingerprint};
use crate::history::{
    opt_image, opt_text, ClipboardImage, EntryView, HistoryEntry, ImageView, Memo, MemoView, PreviewContent,
    PreviewView, RestorePlan, RestoreView, SavePlan, SaveView,
};
use crate::imaging::{decode_rgba, encode_png, png_encoding, png_thumbnail, rgba_decoding, thumbnail_fits, thumbnail_png};
use crate::text::{
    blank, has_prefix, is_blank, is_ws, last_path_segment, last_segment, shorten, shortened, starts_with,
};
use crate::types::ContentType;

verus! {

/// The prefix that marks clipboard text as a reference to a file.
pub open spec fn file_scheme() -> Seq<char> {
    "file://"@
}

/// The text of an optional string, or the empty text.
pub open spec fn text_or_empty(t: Option<Seq<char>>) -> Seq<char> {
    match t {
        Some(s) => s,
        None => Seq::empty(),
    }
}

/// What recording a file reference does, given the fingerprint remembered last
/// and the clipboard text (`None` when it could not be read).
pub open spec fn file_save(last: Seq<char>, text: Option<Seq<char>>) -> SaveView {
    match text {
        None => SaveView::Unreadable,
        Some(t) => if text_fingerprint(t) == last {
            SaveView::Unchanged
        } else {
            SaveView::Record {
                entry: EntryView { content_type: ContentType::File, text: Some(t), image: None },
                memo: MemoView::Fingerprint(text_fingerprint(t)),
            }
        },
    }
}

/// What recording text does, given the fingerprint remembered last and the
/// clipboard text (`None` when it could not be read).
pub open spec fn text_save(last: Seq<char>, text: Option<Seq<char>>) -> SaveView {
    match text {
        None => SaveView::Skip,
        Some(t) => if is_blank(t) {
            SaveView::Skip
        } else if text_fingerprint(t) == last {
            SaveView::Unchanged
        } else {
            SaveView::Record {
                entry: EntryView { content_type: ContentType::Text, text: Some(t), image: None },
                memo: MemoView::Fingerprint(text_fingerprint(t)),
            }
        },
    }
}

/// What recording an image does, given the hash remembered last, the clipboard
/// image and the hash of its pixels: an image whose hash differs is recorded as
/// PNG, when its pixel buffer holds four bytes for each of its pixels and the
/// encoder gives a PNG; otherwise nothing is recorded.
pub open spec fn image_save(last: u64, image: Option<ImageView>, hash: u64) -> SaveView {
    match image {
        None => SaveView::Skip,
        Some(i) => if hash == last {
            SaveView::Skip
        } else if 4 * (i.width as u32) * (i.height as u32) > i.bytes.len() {
            SaveView::Skip
        } else {
            match png_encoding(i.width as u32, i.height as u32, i.bytes) {
                Some(png) => SaveView::Record {
                    entry: EntryView {
                        content_type: ContentType::Image,
                        text: None,
                        image: Some(png),
                    },
                    memo: MemoView::ImageHash(hash),
                },
                None => SaveView::Skip,
            }
        },
    }
}

/// The hash of the pixels of the clipboard image (0 when there is none).
pub open spec fn image_hash_of(image: Option<ImageView>) -> u64 {
    match image {
        Some(i) => pixel_hash(i.bytes),
        None => 0,
    }
}

/// The hash of an entry's stored image bytes (0 when it has none).
pub open spec fn blob_hash_of(e: EntryView) -> u64 {
    match e.image {
        Some(b) => pixel_hash(b),
        None => 0,
    }
}

/// What restoring an entry as a file reference takes: its text, if it has one.
pub open spec fn file_restore(e: EntryView) -> RestoreView {
    match e.text {
        Some(t) => RestoreView::SetText(t),
        None => RestoreView::Nothing,
    }
}

/// What restoring an entry as text takes: a text entry's text.
pub open spec fn text_restore(e: EntryView) -> RestoreView {
    if e.content_type == ContentType::Text {
        match e.text {
            Some(t) => RestoreView::SetText(t),
            None => RestoreView::Nothing,
        }
    } else {
        RestoreView::Nothing
    }
}

/// What restoring an entry as an image takes: an image entry's decoded pixels,
/// after which `hash` (the hash of the stored bytes) is remembered.
pub open spec fn image_restore(e: EntryView, hash: u64) -> RestoreView {
    if e.content_type == ContentType::Image {
        match e.image {
            Some(png) => match rgba_decoding(png) {
                Some(d) => RestoreView::SetImage {
                    width: d.0 as usize,
                    height: d.1 as usize,
                    pixels: d.2,
                    hash,
                },
                None => RestoreView::Undecodable,
            },
            None => RestoreView::Nothing,
        }
    } else {
        RestoreView::Nothing
    }
}

/// The preview of a file entry: a folder sign and the last segment of its path.
pub open spec fn file_preview(e: EntryView) -> PreviewView {
    PreviewView::Text("\u{1F4C1} "@ + last_segment(text_or_empty(e.text)))
}

/// The preview of a text entry: at most 80 bytes shown whole, else its first 77
/// characters and `"..."`.
pub open spec fn text_preview(e: EntryView) -> PreviewView {
    PreviewView::Text(shortened(text_or_empty(e.text), 80, 77))
}

/// The largest width and height of an image preview.
pub open spec fn thumbnail_side() -> u32 {
    150
}

/// The preview of an image entry: a thumbnail of its image, or an error line when
/// there is none.
pub open spec fn image_preview(e: EntryView) -> PreviewView {
    match e.image {
        Some(bytes) => match png_thumbnail(bytes, thumbnail_side(), thumbnail_side()) {
            Some(t) => PreviewView::Image(t.0),
            None => PreviewView::Text("[Image Rendering Error]"@),
        },
        None => PreviewView::Text("[Image Rendering Error]"@),
    }
}

/// Records file references: clipboard text that starts with `file://`.
pub struct FileFormatter {
    last_hash: String,
}

impl FileFormatter {
    /// The fingerprint of the file reference recorded last (empty when none is remembered).
    pub closed spec fn memory(&self) -> Seq<char> {
        self.last_hash@
    }

    /// A formatter that remembers nothing.
    pub fn new() -> (r: Self)
        ensures
            r.memory() == Seq::<char>::empty(),
    {
        FileFormatter { last_hash: String::new() }
    }

    /// Whether this formatter restores entries of type `content_type`.
    pub fn can_handle(&self, content_type: &ContentType) -> (r: bool)
        ensures
            r == (*content_type == ContentType::File),
    {
        match content_type {
            ContentType::File => true,
            _ => false,
        }
    }

    /// What restoring `entry` takes.
    pub fn restore(&self, entry: &HistoryEntry) -> (r: RestorePlan)
        ensures
            r@ == file_restore(entry@),
    {
        match &entry.text_content {
            Some(t) => RestorePlan::SetText(t.clone()),
            None => RestorePlan::Nothing,
        }
    }

    /// The preview of `entry`.
    pub fn get_preview(&self, entry: &HistoryEntry) -> (r: PreviewContent)
        ensures
            r@ == file_preview(entry@),
    {
        let mut s = String::new();
        s.append("\u{1F4C1} ");
        let name = match &entry.text_content {
            Some(t) => last_path_segment(t.as_str()),
            None => {
                proof {
                    reveal_strlit("");
                }
                last_path_segment("")
            },
        };
        s.append(name.as_str());
        PreviewContent::Text(s)
    }

    /// Whether this formatter records the clipboard text `text`.
    pub fn can_save(&self, text: Option<&str>) -> (r: bool)
        ensures
            r == match text {
                Some(t) => has_prefix(t@, file_scheme()),
                None => false,
            },
    {
        match text {
            Some(t) => starts_with(t, "file://"),
            None => false,
        }
    }

    /// What recording the clipboard text `text` does.
    pub fn save(&self, text: Option<String>) -> (r: SavePlan)
        ensures
            r@ == file_save(self.memory(), opt_text(text)),
            r is Unchanged ==> self.memory().len() == 64,
    {
        match text {
            None => SavePlan::Unreadable,
            Some(t) => {
                let current = fingerprint_text(t.as_str());
                if self.last_hash == current {
                    SavePlan::Unchanged
                } else {
                    SavePlan::Record {
                        entry: HistoryEntry {
                            content_type: ContentType::File,
                            text_content: Some(t),
                            image_blob: None,
                        },
                        memo: Memo::Fingerprint(current),
                    }
                }
            },
        }
    }

    /// Remembers `fingerprint` as that of the content recorded last.
    pub fn remember(&mut self, fingerprint: String)
        ensures
            final(self).memory() == fingerprint@,
    {
        self.last_hash = fingerprint;
    }

    /// Forgets the content recorded last.
    pub fn clear_memory(&mut self)
        ensures
            final(self).memory() == Seq::<char>::empty(),
    {
        self.last_hash = String::new();
    }
}

/// Records images.
pub struct ImageFormatter {
    last_hash: u64,
}

impl ImageFormatter {
    /// The hash of the image recorded last (0 when none is remembered).
    pub closed spec fn memory(&self) -> u64 {
        self.last_hash
    }

    /// A formatter that remembers nothing.
    pub fn new() -> (r: Self)
        ensures
            r.memory() == 0,
    {
        ImageFormatter { last_hash: 0 }
    }

    /// Whether this formatter restores entries of type `content_type`.
    pub fn can_handle(&self, content_type: &ContentType) -> (r: bool)
        ensures
            r == (*content_type == ContentType::Image),
    {
        match content_type {
            ContentType::Image => true,
            _ => false,
        }
    }

    /// What restoring `entry` takes, with `hash` as the hash of its stored bytes.
    pub fn restore_with_hash(&self, entry: &HistoryEntry, hash: u64) -> (r: RestorePlan)
        ensures
            r@ == image_restore(entry@, hash),
    {
        match entry.content_type {
            ContentType::Image => match &entry.image_blob {
                Some(png) => match decode_rgba(png.as_slice()) {
                    Some(d) => RestorePlan::SetImage {
                        width: d.0 as usize,
                        height: d.1 as usize,
                        pixels: d.2,
                        hash,
                    },
                    None => RestorePlan::Undecodable,
                },
                None => RestorePlan::Nothing,
            },
            _ => RestorePlan::Nothing,
        }
    }

    /// What restoring `entry` takes; the hash to remember afterwards is that of
    /// its stored bytes.
    pub fn restore(&self, entry: &HistoryEntry) -> (r: RestorePlan)
        ensures
            r@ == image_restore(entry@, blob_hash_of(entry@)),
    {
        let hash = match &entry.image_blob {
            Some(png) => calculate_hash(png.as_slice()),
            None => 0,
        };
        self.restore_with_hash(entry, hash)
    }

    /// The preview of `entry`.
    pub fn get_preview(&self, entry: &HistoryEntry) -> (r: PreviewContent)
        ensures
            r@ == image_preview(entry@),
    {
        if let Some(full) = &entry.image_blob {
            if let Some(thumb) = Self::generate_thumbnail(full.as_slice()) {
                return PreviewContent::Image(thumb);
            }
        }
        let mut s = String::new();
        s.append("[Image Rendering Error]");
        PreviewContent::Text(s)
    }

    /// A PNG thumbnail of the image file `full_png_bytes`, scaled to fit 150 by
    /// 150 pixels and keeping its proportion; `None` when the bytes do not decode
    /// as an image or the thumbnail does not encode.
    pub fn generate_thumbnail(full_png_bytes: &[u8]) -> (r: Option<Vec<u8>>)
        ensures
            r matches Some(t) ==> png_thumbnail(full_png_bytes@, thumbnail_side(), thumbnail_side())
                matches Some(x) && x.0 == t@,
            r is None <==> png_thumbnail(full_png_bytes@, thumbnail_side(), thumbnail_side()) is None,
            rgba_decoding(full_png_bytes@) is None ==> r is None,
            r is Some ==> match (
                rgba_decoding(full_png_bytes@),
                png_thumbnail(full_png_bytes@, thumbnail_side(), thumbnail_side()),
            ) {
                (Some(d), Some(x)) => thumbnail_fits(d.0, d.1, thumbnail_side(), thumbnail_side(), x.1, x.2),
                _ => false,
            },
    {
        match thumbnail_png(full_png_bytes, 150, 150) {
            Some((png, _, _)) => Some(png),
            None => None,
        }
    }

    /// Whether this formatter records the clipboard image `image`.
    pub fn can_save(&self, image: Option<&ClipboardImage>) -> (r: bool)
        ensures
            r == image is Some,
    {
        image.is_some()
    }

    /// What recording the clipboard image `image` does, with `hash` as the hash of its pixels.
    pub fn save_with_hash(&self, image: Option<ClipboardImage>, hash: u64) -> (r: SavePlan)
        ensures
            r@ == image_save(self.memory(), opt_image(image), hash),
    {
        match image {
            None => SavePlan::Skip,
            Some(i) => {
                if hash == self.last_hash {
                    SavePlan::Skip
                } else {
                    match encode_png(i.width as u32, i.height as u32, i.bytes) {
                        Some(png) => SavePlan::Record {
                            entry: HistoryEntry {
                                content_type: ContentType::Image,
                                text_content: None,
                                image_blob: Some(png),
                            },
                            memo: Memo::ImageHash(hash),
                        },
                        None => SavePlan::Skip,
                    }
                }
            },
        }
    }

    /// What recording the clipboard image `image` does; the hash is that of its pixels.
    pub fn save(&self, image: Option<ClipboardImage>) -> (r: SavePlan)
        ensures
            r@ == image_save(self.memory(), opt_image(image), image_hash_of(opt_image(image))),
    {
        let hash = match &image {
            Some(i) => calculate_hash(i.bytes.as_slice()),
            None => 0,
        };
        self.save_with_hash(image, hash)
    }

    /// Remembers `hash` as that of the image recorded last.
    pub fn remember(&mut self, hash: u64)
        ensures
            final(self).memory() == hash,
    {
        self.last_hash = hash;
    }

    /// Forgets the image recorded last.
    pub fn clear_memory(&mut self)
        ensures
            final(self).memory() == 0,
    {
        self.last_hash = 0;
    }

    /// Remembers the image now on the clipboard, whose pixels hash to `hash`.
    pub fn seed_memory_with_hash(&mut self, image: Option<&ClipboardImage>, hash: u64)
        ensures
            final(self).memory() == (if image is Some {
                hash
            } else {
                old(self).memory()
            }),
    {
        if image.is_some() {
            self.last_hash = hash;
        }
    }

    /// Remembers the image now on the clipboard, so that the service does not
    /// record what was there before it started.
    pub fn seed_memory(&mut self, image: Option<&ClipboardImage>)
        ensures
            final(self).memory() == match image {
                Some(i) => pixel_hash(i.bytes@),
                None => old(self).memory(),
            },
    {
        let hash = match image {
            Some(i) => calculate_hash(i.bytes.as_slice()),
            None => 0,
        };
        self.seed_memory_with_hash(image, hash);
    }
}

/// The image that was on the clipboard when its hash was remembered is not
/// recorded while it stays there.
pub proof fn lemma_seeded_image_is_not_recorded(image: ImageView, hash: u64)
    ensures
        image_save(hash, Some(image), hash) == SaveView::Skip,
{
}

/// Records plain text: any clipboard text that is not a file reference.
pub struct TextFormatter {
    last_hash: String,
}

impl TextFormatter {
    /// The fingerprint of the text recorded last (empty when none is remembered).
    pub closed spec fn memory(&self) -> Seq<char> {
        self.last_hash@
    }

    /// A formatter that remembers nothing.
    pub fn new() -> (r: Self)
        ensures
            r.memory() == Seq::<char>::empty(),
    {
        TextFormatter { last_hash: String::new() }
    }

    /// Whether this formatter restores entries of type `content_type`.
    pub fn can_handle(&self, content_type: &ContentType) -> (r: bool)
        ensures
            r == (*content_type == ContentType::Text),
    {
        match content_type {
            ContentType::Text => true,
            _ => false,
        }
    }

    /// What restoring `entry` takes.
    pub fn restore(&self, entry: &HistoryEntry) -> (r: RestorePlan)
        ensures
            r@ == text_restore(entry@),
    {
        match entry.content_type {
            ContentType::Text => match &entry.text_content {
                Some(t) => RestorePlan::SetText(t.clone()),
                None => RestorePlan::Nothing,
            },
            _ => RestorePlan::Nothing,
        }
    }

    /// The preview of `entry`.
    pub fn get_preview(&self, entry: &HistoryEntry) -> (r: PreviewContent)
        ensures
            r@ == text_preview(entry@),
    {
        let content = match &entry.text_content {
            Some(t) => shorten(t.as_str(), 80, 77),
            None => {
                proof {
                    reveal_strlit("");
                    assert(""@ =~= Seq::<char>::empty());
                }
                shorten("", 80, 77)
            },
        };
        PreviewContent::Text(content)
    }

    /// Whether this formatter records the clipboard text `text`.
    pub fn can_save(&self, text: Option<&str>) -> (r: bool)
        ensures
            r == match text {
                Some(t) => !has_prefix(t@, file_scheme()),
                None => false,
            },
    {
        match text {
            Some(t) => !starts_with(t, "file://"),
            None => false,
        }
    }

    /// What recording the clipboard text `text` does.
    pub fn save(&self, text: Option<String>) -> (r: SavePlan)
        ensures
            r@ == text_save(self.memory(), opt_text(text)),
            r is Unchanged ==> self.memory().len() == 64,
    {
        match text {
            None => SavePlan::Skip,
            Some(t) => {
                if blank(t.as_str()) {
                    return SavePlan::Skip;
                }
                let current = fingerprint_text(t.as_str());
                if self.last_hash == current {
                    SavePlan::Unchanged
                } else {
                    SavePlan::Record {
                        entry: HistoryEntry {
                            content_type: ContentType::Text,
                            text_content: Some(t),
                            image_blob: None,
                        },
                        memo: Memo::Fingerprint(current),
                    }
                }
            },
        }
    }

    /// Remembers `fingerprint` as that of the text recorded last.
    pub fn remember(&mut self, fingerprint: String)
        ensures
            final(self).memory() == fingerprint@,
    {
        self.last_hash = fingerprint;
    }

    /// Forgets the text recorded last.
    pub fn clear_memory(&mut self)
        ensures
            final(self).memory() == Seq::<char>::empty(),
    {
        self.last_hash = String::new();
    }
}

/// Text on the clipboard is recorded once per change: a text that holds a
/// character other than whitespace, whatever its last character, is recorded as
/// a text entry with its fingerprint as memo whenever its fingerprint differs
/// from the one remembered, and reported unchanged when it is the same.
pub proof fn lemma_text_is_recorded_once_per_change(last: Seq<char>, t: Seq<char>, k: int)
    requires
        0 <= k < t.len(),
        !is_ws(t[k]),
    ensures
        text_fingerprint(t) != last ==> text_save(last, Some(t)) == (SaveView::Record {
            entry: EntryView { content_type: ContentType::Text, text: Some(t), image: None },
            memo: MemoView::Fingerprint(text_fingerprint(t)),
        }),
        text_fingerprint(t) == last ==> text_save(last, Some(t)) == SaveView::Unchanged,
{
}

/// Only a text of nothing but whitespace, or no text at all, is passed over.
pub proof fn lemma_only_blank_text_is_skipped(last: Seq<char>, t: Seq<char>)
    requires
        forall|i: int| 0 <= i < t.len() ==> is_ws(#[trigger] t[i]),
    ensures
        text_save(last, Some(t)) == SaveView::Skip,
        text_save(last, None) == SaveView::Skip,
{
}

/// A file reference is recorded as a file entry whenever its fingerprint differs
/// from the one remembered, and reported unchanged when it is the same.
pub proof fn lemma_file_reference_is_recorded_once_per_change(last: Seq<char>, t: Seq<char>)
    ensures
        text_fingerprint(t) != last ==> file_save(last, Some(t)) == (SaveView::Record {
            entry: EntryView { content_type: ContentType::File, text: Some(t), image: None },
            memo: MemoView::Fingerprint(text_fingerprint(t)),
        }),
        text_fingerprint(t) == last ==> file_save(last, Some(t)) == SaveView::Unchanged,
{
}

/// The preview of a text entry shows the text whole when it takes at most 80
/// bytes; a longer text shows its own first 77 characters (all of them, if it
/// has fewer) followed by `"..."`.
pub proof fn lemma_text_preview_is_a_prefix(e: EntryView, t: Seq<char>)
    requires
        e.text == Some(t),
    ensures
        encode_utf8(t).len() <= 80 ==> text_preview(e) == PreviewView::Text(t),
        encode_utf8(t).len() > 80 ==> match text_preview(e) {
            PreviewView::Text(p) => {
                let n = if t.len() < 77 {
                    t.len() as int
                } else {
                    77
                };
                &&& p.len() == n + 3
                &&& forall|i: int| 0 <= i < n ==> p[i] == t[i]
                &&& p.subrange(n, n + 3) == "..."@
            },
            _ => false,
        },
{
    if encode_utf8(t).len() > 80 {
        let n = if t.len() < 77 {
            t.len() as int
        } else {
            77
        };
        let p = t.take(n) + "..."@;
        reveal_strlit("...");
        assert(p.subrange(n, n + 3) =~= "..."@);
    }
}

/// Restoring an image entry puts back the image that its PNG decodes to, with the
/// decoded width as width and the decoded height as height, its pixels as they
/// are, and the hash given.
pub proof fn lemma_image_restores_as_decoded(
    e: EntryView,
    png: Seq<u8>,
    width: u32,
    height: u32,
    pixels: Seq<u8>,
    hash: u64,
)
    requires
        e.content_type == ContentType::Image,
        e.image == Some(png),
        rgba_decoding(png) == Some((width, height, pixels)),
    ensures
        image_restore(e, hash) matches RestoreView::SetImage { width: w, height: h, pixels: q, hash: g }
            && w == width && h == height && q == pixels && g == hash,
{
}

/// An image whose hash differs from the one remembered, whatever that one is, is
/// recorded as its PNG with its hash as memo, when its buffer holds four bytes per
/// pixel and it encodes; the image whose hash is remembered is passed over.
pub proof fn lemma_new_image_is_recorded(last: u64, image: ImageView, hash: u64, png: Seq<u8>)
    requires
        4 * (image.width as u32) * (image.height as u32) <= image.bytes.len(),
        png_encoding(image.width as u32, image.height as u32, image.bytes) == Some(png),
    ensures
        hash != last ==> image_save(last, Some(image), hash) == (SaveView::Record {
            entry: EntryView { content_type: ContentType::Image, text: None, image: Some(png) },
            memo: MemoView::ImageHash(hash),
        }),
        hash == last ==> image_save(last, Some(image), hash) == SaveView::Skip,
{
}

} // verus!
