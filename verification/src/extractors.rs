//! The extractors of the clipboard daemon: for each content type, how the
//! daemon records clipboard content, how it restores a recorded entry, and how
//! an entry is previewed. The daemon tries them in the order file, image, text,
//! and after any save every extractor forgets what it remembered.
use vstd::prelude::*;
use vstd::utf8::encode_utf8;

use crate::digest::{calculate_hash, fingerprint_text, text_fingerprint};
use crate::formatters::{blob_hash_of, image_hash_of, file_scheme, image_restore, image_save, text_or_empty, text_restore, text_save};
use crate::history::{
    copy_image, opt_image_ref, opt_str, ClipboardImage, ClipboardSnapshot, EntryView, HistoryEntry, Memo,
    PreviewContent, PreviewView, RestorePlan, RestoreView, SavePlan, SaveView, SnapshotView,
};
use crate::imaging::{decode_rgba, encode_png};
use crate::registry::{empty_registry, kind_at, kind_handles, registry_order, FormatterKind, RegistryView};
use crate::text::{
    blank, has_prefix, last_path_segment, last_segment, shorten, shortened, starts_with,
};
use crate::types::{extractor_position, ContentType};

verus! {

/// What the file extractor does with the clipboard text: a text that starts with
/// `file://` is recorded unless its fingerprint is the one remembered.
pub open spec fn file_extract_save(last: Seq<char>, text: Option<Seq<char>>) -> SaveView {
    match text {
        Some(t) => if !has_prefix(t, file_scheme()) {
            SaveView::Skip
        } else if text_fingerprint(t) == last {
            SaveView::Unchanged
        } else {
            SaveView::Record {
                entry: EntryView { content_type: ContentType::File, text: Some(t), image: None },
                memo: crate::history::MemoView::Fingerprint(text_fingerprint(t)),
            }
        },
        None => SaveView::Skip,
    }
}

/// What the file extractor does to restore entry `e`: a file entry's path.
pub open spec fn file_extract_restore(e: EntryView) -> RestoreView {
    if e.content_type == ContentType::File {
        match e.text {
            Some(t) => RestoreView::SetText(t),
            None => RestoreView::Nothing,
        }
    } else {
        RestoreView::Nothing
    }
}

/// The daemon's preview of a file entry: a folder sign, `File: ` and the last
/// segment of its path (`Unknown` when it has none).
pub open spec fn file_extract_preview(e: EntryView) -> PreviewView {
    PreviewView::Text(
        "\u{1F4C1} File: "@ + last_segment(
            match e.text {
                Some(t) => t,
                None => "Unknown"@,
            },
        ),
    )
}

/// The daemon's preview of a text entry: at most 30 bytes shown whole, else its
/// first 27 characters and `"..."`.
pub open spec fn text_extract_preview(e: EntryView) -> PreviewView {
    PreviewView::Text(shortened(text_or_empty(e.text), 30, 27))
}

/// The daemon's preview of an image entry.
pub open spec fn image_extract_preview() -> PreviewView {
    PreviewView::Text("[\u{1F5BC}\u{FE0F} Image Binary Data]"@)
}

/// The daemon's file extractor.
pub struct FileExtractor {
    last_hash: String,
}

impl FileExtractor {
    /// The fingerprint of the file reference recorded last.
    pub closed spec fn memory(&self) -> Seq<char> {
        self.last_hash@
    }

    /// An extractor that remembers nothing.
    pub fn new() -> (r: Self)
        ensures
            r.memory() == Seq::<char>::empty(),
    {
        FileExtractor { last_hash: String::new() }
    }

    /// Whether this extractor restores entries of type `content_type`.
    pub fn can_handle(&self, content_type: &ContentType) -> (r: bool)
        ensures
            r == (*content_type == ContentType::File),
    {
        match content_type {
            ContentType::File => true,
            _ => false,
        }
    }

    /// What recording the clipboard text `text` does.
    pub fn try_save(&self, text: Option<&str>) -> (r: SavePlan)
        ensures
            r@ == file_extract_save(
                self.memory(),
                opt_str(text),
            ),
            r is Unchanged ==> self.memory().len() == 64,
    {
        match text {
            Some(t) => {
                if !starts_with(t, "file://") {
                    return SavePlan::Skip;
                }
                let current = fingerprint_text(t);
                if self.last_hash == current {
                    SavePlan::Unchanged
                } else {
                    SavePlan::Record {
                        entry: HistoryEntry {
                            content_type: ContentType::File,
                            text_content: Some(t.to_owned()),
                            image_blob: None,
                        },
                        memo: Memo::Fingerprint(current),
                    }
                }
            },
            None => SavePlan::Skip,
        }
    }

    /// What restoring `entry` takes.
    pub fn try_restore(&self, entry: &HistoryEntry) -> (r: RestorePlan)
        ensures
            r@ == file_extract_restore(entry@),
    {
        match entry.content_type {
            ContentType::File => match &entry.text_content {
                Some(path) => RestorePlan::SetText(path.clone()),
                None => RestorePlan::Nothing,
            },
            _ => RestorePlan::Nothing,
        }
    }

    /// Remembers `fingerprint` as that of the file reference recorded last.
    pub fn remember(&mut self, fingerprint: String)
        ensures
            final(self).memory() == fingerprint@,
    {
        self.last_hash = fingerprint;
    }

    /// Forgets the file reference recorded last.
    pub fn clear_memory(&mut self)
        ensures
            final(self).memory() == Seq::<char>::empty(),
    {
        self.last_hash = String::new();
    }

    /// The preview of `entry`.
    pub fn get_preview(&self, entry: &HistoryEntry) -> (r: PreviewContent)
        ensures
            r@ == file_extract_preview(entry@),
    {
        let name = match &entry.text_content {
            Some(t) => last_path_segment(t.as_str()),
            None => last_path_segment("Unknown"),
        };
        let mut s = String::new();
        s.append("\u{1F4C1} File: ");
        s.append(name.as_str());
        PreviewContent::Text(s)
    }
}

/// The daemon's image extractor.
pub struct ImageExtractor {
    last_hash: u64,
}

impl ImageExtractor {
    /// The hash of the image recorded last (0 when none is remembered).
    pub closed spec fn memory(&self) -> u64 {
        self.last_hash
    }

    /// An extractor that remembers nothing.
    pub fn new() -> (r: Self)
        ensures
            r.memory() == 0,
    {
        ImageExtractor { last_hash: 0 }
    }

    /// Whether this extractor restores entries of type `content_type`.
    pub fn can_handle(&self, content_type: &ContentType) -> (r: bool)
        ensures
            r == (*content_type == ContentType::Image),
    {
        match content_type {
            ContentType::Image => true,
            _ => false,
        }
    }

    /// What recording the clipboard image `image` does, with `hash` as the hash of its pixels.
    pub fn try_save_with_hash(&self, image: Option<&ClipboardImage>, hash: u64) -> (r: SavePlan)
        ensures
            r@ == image_save(
                self.memory(),
                opt_image_ref(image),
                hash,
            ),
    {
        match image {
            None => SavePlan::Skip,
            Some(i) => {
                if hash == self.last_hash {
                    return SavePlan::Skip;
                }
                let copy = copy_image(i);
                match encode_png(copy.width as u32, copy.height as u32, copy.bytes) {
                    Some(png) => SavePlan::Record {
                        entry: HistoryEntry {
                            content_type: ContentType::Image,
                            text_content: None,
                            image_blob: Some(png),
                        },
                        memo: Memo::ImageHash(hash),
                    },
                    None => SavePlan::Skip,
                }
            },
        }
    }

    /// What recording the clipboard image `image` does; the hash is that of its pixels.
    pub fn try_save(&self, image: Option<&ClipboardImage>) -> (r: SavePlan)
        ensures
            r@ == image_save(
                self.memory(),
                opt_image_ref(image),
                image_hash_of(opt_image_ref(image)),
            ),
    {
        let hash = match image {
            Some(i) => calculate_hash(i.bytes.as_slice()),
            None => 0,
        };
        self.try_save_with_hash(image, hash)
    }

    /// What restoring `entry` takes, with `hash` as the hash of its stored bytes.
    pub fn try_restore_with_hash(&self, entry: &HistoryEntry, hash: u64) -> (r: RestorePlan)
        ensures
            r@ == image_restore(entry@, hash),
    {
        match entry.content_type {
            ContentType::Image => match &entry.image_blob {
                Some(png) => match decode_rgba(png.as_slice()) {
                    Some(d) => RestorePlan::SetImage {
                        width: d.0 as usize,
                        height: d.1 as usize,
                        pixels: d.2,
                        hash,
                    },
                    None => RestorePlan::Undecodable,
                },
                None => RestorePlan::Nothing,
            },
            _ => RestorePlan::Nothing,
        }
    }

    /// What restoring `entry` takes; the hash to remember afterwards is that of
    /// its stored bytes.
    pub fn try_restore(&self, entry: &HistoryEntry) -> (r: RestorePlan)
        ensures
            r@ == image_restore(entry@, blob_hash_of(entry@)),
    {
        let hash = match &entry.image_blob {
            Some(png) => calculate_hash(png.as_slice()),
            None => 0,
        };
        self.try_restore_with_hash(entry, hash)
    }

    /// Remembers `hash` as that of the image recorded or restored last.
    pub fn remember(&mut self, hash: u64)
        ensures
            final(self).memory() == hash,
    {
        self.last_hash = hash;
    }

    /// Forgets the image recorded last.
    pub fn clear_memory(&mut self)
        ensures
            final(self).memory() == 0,
    {
        self.last_hash = 0;
    }

    /// The preview of an image entry.
    pub fn get_preview(&self, entry: &HistoryEntry) -> (r: PreviewContent)
        ensures
            r@ == image_extract_preview(),
    {
        let mut s = String::new();
        s.append("[\u{1F5BC}\u{FE0F} Image Binary Data]");
        PreviewContent::Text(s)
    }
}

/// The daemon's text extractor.
pub struct TextExtractor {
    last_hash: String,
}

impl TextExtractor {
    /// The fingerprint of the text recorded last.
    pub closed spec fn memory(&self) -> Seq<char> {
        self.last_hash@
    }

    /// An extractor that remembers nothing.
    pub fn new() -> (r: Self)
        ensures
            r.memory() == Seq::<char>::empty(),
    {
        TextExtractor { last_hash: String::new() }
    }

    /// Whether this extractor restores entries of type `content_type`.
    pub fn can_handle(&self, content_type: &ContentType) -> (r: bool)
        ensures
            r == (*content_type == ContentType::Text),
    {
        match content_type {
            ContentType::Text => true,
            _ => false,
        }
    }

    /// What recording the clipboard text `text` does.
    pub fn try_save(&self, text: Option<&str>) -> (r: SavePlan)
        ensures
            r@ == text_save(
                self.memory(),
                opt_str(text),
            ),
            r is Unchanged ==> self.memory().len() == 64,
    {
        match text {
            Some(t) => {
                if blank(t) {
                    return SavePlan::Skip;
                }
                let current = fingerprint_text(t);
                if self.last_hash == current {
                    SavePlan::Unchanged
                } else {
                    SavePlan::Record {
                        entry: HistoryEntry {
                            content_type: ContentType::Text,
                            text_content: Some(t.to_owned()),
                            image_blob: None,
                        },
                        memo: Memo::Fingerprint(current),
                    }
                }
            },
            None => SavePlan::Skip,
        }
    }

    /// What restoring `entry` takes.
    pub fn try_restore(&self, entry: &HistoryEntry) -> (r: RestorePlan)
        ensures
            r@ == text_restore(entry@),
    {
        match entry.content_type {
            ContentType::Text => match &entry.text_content {
                Some(t) => RestorePlan::SetText(t.clone()),
                None => RestorePlan::Nothing,
            },
            _ => RestorePlan::Nothing,
        }
    }

    /// Remembers `fingerprint` as that of the text recorded last.
    pub fn remember(&mut self, fingerprint: String)
        ensures
            final(self).memory() == fingerprint@,
    {
        self.last_hash = fingerprint;
    }

    /// Forgets the text recorded last.
    pub fn clear_memory(&mut self)
        ensures
            final(self).memory() == Seq::<char>::empty(),
    {
        self.last_hash = String::new();
    }

    /// The preview of `entry`.
    pub fn get_preview(&self, entry: &HistoryEntry) -> (r: PreviewContent)
        ensures
            r@ == text_extract_preview(entry@),
    {
        let content = match &entry.text_content {
            Some(t) => shorten(t.as_str(), 30, 27),
            None => {
                proof {
                    reveal_strlit("");
                    assert(""@ =~= Seq::<char>::empty());
                }
                shorten("", 30, 27)
            },
        };
        PreviewContent::Text(content)
    }
}

/// What extractor `k` does with the snapshot `s`, with `h` as the hash of its image.
pub open spec fn extract_save(r: RegistryView, k: FormatterKind, s: SnapshotView, h: u64) -> SaveView {
    match k {
        FormatterKind::File => file_extract_save(r.file, s.text),
        FormatterKind::Image => image_save(r.image, s.image, h),
        FormatterKind::Text => text_save(r.text, s.text),
    }
}

/// What extractor `k` does to restore entry `e`, with `h` as the hash of its stored image.
pub open spec fn extract_restore(k: FormatterKind, e: EntryView, h: u64) -> RestoreView {
    match k {
        FormatterKind::File => file_extract_restore(e),
        FormatterKind::Image => image_restore(e, h),
        FormatterKind::Text => text_restore(e),
    }
}

/// Starting at position `from` of the extractor list, the first extractor whose
/// save does not skip the snapshot, with what it does; position 3 and a skip when
/// every remaining extractor skips it.
pub open spec fn daemon_choice(r: RegistryView, from: int, s: SnapshotView, h: u64) -> (int, SaveView)
    decreases 3 - from,
{
    if from >= 3 || from < 0 {
        (3, SaveView::Skip)
    } else {
        let p = extract_save(r, registry_order()[from], s, h);
        if p is Skip {
            daemon_choice(r, from + 1, s, h)
        } else {
            (from, p)
        }
    }
}

/// The first extractor of the list whose restore plan for `e` is not empty, with
/// that plan; `None` when no extractor restores `e`.
pub open spec fn restore_choice(e: EntryView, h: u64) -> Option<(FormatterKind, RestoreView)> {
    if !(extract_restore(FormatterKind::File, e, h) is Nothing) {
        Some((FormatterKind::File, extract_restore(FormatterKind::File, e, h)))
    } else if !(extract_restore(FormatterKind::Image, e, h) is Nothing) {
        Some((FormatterKind::Image, extract_restore(FormatterKind::Image, e, h)))
    } else if !(extract_restore(FormatterKind::Text, e, h) is Nothing) {
        Some((FormatterKind::Text, extract_restore(FormatterKind::Text, e, h)))
    } else {
        None
    }
}

/// What the daemon does next in one look at the clipboard.
#[derive(Debug, Clone, Copy, PartialEq, Eq, Structural)]
pub enum DaemonStep {
    /// Ask the extractors again, from this position of the list on.
    Continue(usize),
    /// This look is over; `saved` tells whether something was saved, after
    /// which every extractor has forgotten what it remembered.
    Done { saved: bool },
}

/// The step that follows when the extractor at position `at` planned `p`, and
/// the entry of a `Record` plan was stored or not (`stored`). A save that went
/// through ends the look; a failed one hands over to the next extractor.
pub open spec fn daemon_step(at: int, p: SaveView, stored: bool) -> DaemonStep {
    match p {
        SaveView::Skip => DaemonStep::Done { saved: false },
        SaveView::Unchanged => DaemonStep::Done { saved: true },
        SaveView::Record { .. } => if stored {
            DaemonStep::Done { saved: true }
        } else if 0 <= at < 3 {
            DaemonStep::Continue((at + 1) as usize)
        } else {
            DaemonStep::Done { saved: false }
        },
        SaveView::Unreadable => if 0 <= at < 3 {
            DaemonStep::Continue((at + 1) as usize)
        } else {
            DaemonStep::Done { saved: false }
        },
    }
}

/// The daemon's extractors, in the order file, image, text.
pub struct Extractors {
    file: FileExtractor,
    image: ImageExtractor,
    text: TextExtractor,
}

impl View for Extractors {
    type V = RegistryView;

    closed spec fn view(&self) -> RegistryView {
        RegistryView {
            file: self.file.memory(),
            image: self.image.memory(),
            text: self.text.memory(),
        }
    }
}

/// The daemon's extractors, remembering nothing.
pub fn get_all() -> (r: Extractors)
    ensures
        r@ == empty_registry(),
{
    Extractors { file: FileExtractor::new(), image: ImageExtractor::new(), text: TextExtractor::new() }
}

impl Extractors {
    /// What extractor `kind` does with `snapshot`, with `hash` as the hash of its image.
    pub fn try_save_with_hash(&self, kind: FormatterKind, snapshot: &ClipboardSnapshot, hash: u64) -> (r:
        SavePlan)
        ensures
            r@ == extract_save(self@, kind, snapshot@, hash),
    {
        let text = match &snapshot.text {
            Some(t) => Some(t.as_str()),
            None => None,
        };
        match kind {
            FormatterKind::File => self.file.try_save(text),
            FormatterKind::Image => self.image.try_save_with_hash(
                match &snapshot.image {
                    Some(i) => Some(i),
                    None => None,
                },
                hash,
            ),
            FormatterKind::Text => self.text.try_save(text),
        }
    }

    /// Starting at position `from`, the position of the first extractor that does
    /// not skip `snapshot` and what it does, with `hash` as the hash of its image.
    pub fn plan_save_with_hash(&self, from: usize, snapshot: &ClipboardSnapshot, hash: u64) -> (r: (
        usize,
        SavePlan,
    ))
        ensures
            (r.0 as int, r.1@) == daemon_choice(self@, from as int, snapshot@, hash),
        decreases 3 - from,
    {
        if from >= 3 {
            return (3, SavePlan::Skip);
        }
        let kind = kind_at(from);
        let plan = self.try_save_with_hash(kind, snapshot, hash);
        match plan {
            SavePlan::Skip => self.plan_save_with_hash(from + 1, snapshot, hash),
            _ => (from, plan),
        }
    }

    /// Starting at position `from`, the position of the first extractor that does
    /// not skip `snapshot` and what it does; the hash is that of its image.
    pub fn plan_save(&self, from: usize, snapshot: &ClipboardSnapshot) -> (r: (usize, SavePlan))
        ensures
            (r.0 as int, r.1@) == daemon_choice(
                self@,
                from as int,
                snapshot@,
                image_hash_of(snapshot@.image),
            ),
    {
        let hash = match &snapshot.image {
            Some(i) => calculate_hash(i.bytes.as_slice()),
            None => 0,
        };
        self.plan_save_with_hash(from, snapshot, hash)
    }

    /// Remembers `memo` in extractor `kind` after what it planned to record was stored.
    pub fn remember(&mut self, kind: FormatterKind, memo: Memo)
        ensures
            final(self)@ == crate::registry::remembered(old(self)@, kind, memo@),
    {
        match (kind, memo) {
            (FormatterKind::File, Memo::Fingerprint(f)) => self.file.remember(f),
            (FormatterKind::Text, Memo::Fingerprint(f)) => self.text.remember(f),
            (FormatterKind::Image, Memo::ImageHash(h)) => self.image.remember(h),
            _ => {},
        }
    }

    /// Makes every extractor forget what it remembers (after any save).
    pub fn clear_all(&mut self)
        ensures
            final(self)@ == empty_registry(),
    {
        self.file.clear_memory();
        self.image.clear_memory();
        self.text.clear_memory();
    }

    /// Carries out the rest of what the extractor at position `at` planned,
    /// once the daemon has tried to store the entry of a `Record` plan
    /// (`stored` tells whether that went through), and says what comes next.
    /// After a save every extractor forgets; otherwise nothing changes.
    pub fn conclude(&mut self, at: usize, plan: SavePlan, stored: bool) -> (r: DaemonStep)
        ensures
            r == daemon_step(at as int, plan@, stored),
            final(self)@ == (if r == (DaemonStep::Done { saved: true }) {
                empty_registry()
            } else {
                old(self)@
            }),
    {
        match plan {
            SavePlan::Skip => DaemonStep::Done { saved: false },
            SavePlan::Unchanged => {
                self.clear_all();
                DaemonStep::Done { saved: true }
            },
            SavePlan::Record { memo, .. } => {
                if stored {
                    if at < 3 {
                        self.remember(kind_at(at), memo);
                    }
                    self.clear_all();
                    DaemonStep::Done { saved: true }
                } else if at < 3 {
                    DaemonStep::Continue(at + 1)
                } else {
                    DaemonStep::Done { saved: false }
                }
            },
            SavePlan::Unreadable => {
                if at < 3 {
                    DaemonStep::Continue(at + 1)
                } else {
                    DaemonStep::Done { saved: false }
                }
            },
        }
    }

    /// Which extractor restores `entry` first, and with what plan, with `hash` as
    /// the hash of its stored image; `None` when none restores it.
    pub fn plan_restore_with_hash(&self, entry: &HistoryEntry, hash: u64) -> (r: Option<
        (FormatterKind, RestorePlan),
    >)
        ensures
            match r {
                Some(p) => restore_choice(entry@, hash) == Some((p.0, p.1@)),
                None => restore_choice(entry@, hash) is None,
            },
    {
        let p = self.file.try_restore(entry);
        if !matches!(p, RestorePlan::Nothing) {
            return Some((FormatterKind::File, p));
        }
        let p = self.image.try_restore_with_hash(entry, hash);
        if !matches!(p, RestorePlan::Nothing) {
            return Some((FormatterKind::Image, p));
        }
        let p = self.text.try_restore(entry);
        if !matches!(p, RestorePlan::Nothing) {
            return Some((FormatterKind::Text, p));
        }
        None
    }

    /// Which extractor restores `entry` first, and with what plan; `None` when none does.
    pub fn plan_restore(&self, entry: &HistoryEntry) -> (r: Option<(FormatterKind, RestorePlan)>)
        ensures
            match r {
                Some(p) => restore_choice(entry@, blob_hash_of(entry@)) == Some((p.0, p.1@)),
                None => restore_choice(entry@, blob_hash_of(entry@)) is None,
            },
    {
        let hash = match &entry.image_blob {
            Some(png) => calculate_hash(png.as_slice()),
            None => 0,
        };
        self.plan_restore_with_hash(entry, hash)
    }

    /// Remembers `hash` as the image put back on the clipboard.
    pub fn remember_restored_image(&mut self, hash: u64)
        ensures
            final(self)@ == (RegistryView { image: hash, ..old(self)@ }),
    {
        self.image.remember(hash);
    }

    /// The preview that extractor `kind` gives of `entry`.
    pub fn get_preview(&self, kind: FormatterKind, entry: &HistoryEntry) -> (r: PreviewContent)
        ensures
            r@ == match kind {
                FormatterKind::File => file_extract_preview(entry@),
                FormatterKind::Image => image_extract_preview(),
                FormatterKind::Text => text_extract_preview(entry@),
            },
    {
        match kind {
            FormatterKind::File => self.file.get_preview(entry),
            FormatterKind::Image => self.image.get_preview(entry),
            FormatterKind::Text => self.text.get_preview(entry),
        }
    }
}

/// The extractor at the position that `ContentType::extractor_index` gives is the
/// one that restores that content type.
pub proof fn lemma_extractor_index_finds_handler(c: ContentType)
    ensures
        0 <= extractor_position(c) < registry_order().len(),
        kind_handles(registry_order()[extractor_position(c)], c),
{
}

/// Restoring a recorded entry picks the extractor of its content type, so an
/// entry recorded from text gives back that text.
pub proof fn lemma_daemon_restores_recorded_text(r: RegistryView, s: SnapshotView, h: u64, h2: u64)
    requires
        daemon_choice(r, 0, s, h).1 is Record,
        daemon_choice(r, 0, s, h).0 != 1,
    ensures
        ({
            let e = daemon_choice(r, 0, s, h).1->entry;
            &&& s.text is Some
            &&& restore_choice(e, h2) matches Some(p) && p.1 == RestoreView::SetText(s.text->0)
        }),
{
    reveal_with_fuel(daemon_choice, 4);
}

/// The daemon records a file reference once per change: a text that begins with
/// `file://` is recorded as a file entry whenever its fingerprint differs from
/// the one remembered, and reported unchanged when it is the same; any other
/// text, or none, is left to the next extractor.
pub proof fn lemma_daemon_file_reference_once_per_change(last: Seq<char>, t: Seq<char>)
    ensures
        (7 <= t.len() && t.subrange(0, 7) == "file://"@ && text_fingerprint(t) != last) ==> file_extract_save(
            last,
            Some(t),
        ) == (SaveView::Record {
            entry: EntryView { content_type: ContentType::File, text: Some(t), image: None },
            memo: crate::history::MemoView::Fingerprint(text_fingerprint(t)),
        }),
        (7 <= t.len() && t.subrange(0, 7) == "file://"@ && text_fingerprint(t) == last) ==> file_extract_save(
            last,
            Some(t),
        ) == SaveView::Unchanged,
        !(7 <= t.len() && t.subrange(0, 7) == "file://"@) ==> file_extract_save(last, Some(t))
            == SaveView::Skip,
        file_extract_save(last, None) == SaveView::Skip,
{
    reveal_strlit("file://");
}

/// The daemon's preview of a text entry shows the text whole when it takes at
/// most 30 bytes; a longer text shows its own first 27 characters (all of them,
/// if it has fewer) followed by `"..."`.
pub proof fn lemma_daemon_text_preview_is_a_prefix(e: EntryView, t: Seq<char>)
    requires
        e.text == Some(t),
    ensures
        encode_utf8(t).len() <= 30 ==> text_extract_preview(e) == PreviewView::Text(t),
        encode_utf8(t).len() > 30 ==> match text_extract_preview(e) {
            PreviewView::Text(p) => {
                let n = if t.len() < 27 {
                    t.len() as int
                } else {
                    27
                };
                &&& p.len() == n + 3
                &&& forall|i: int| 0 <= i < n ==> p[i] == t[i]
                &&& p.subrange(n, n + 3) == "..."@
            },
            _ => false,
        },
{
    if encode_utf8(t).len() > 30 {
        let n = if t.len() < 27 {
            t.len() as int
        } else {
            27
        };
        let p = t.take(n) + "..."@;
        reveal_strlit("...");
        assert(p.subrange(n, n + 3) =~= "..."@);
    }
}

} // verus!
