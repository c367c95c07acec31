//! The registry of formatters that the clipboard service consults: which
//! formatter records what the clipboard shows, which one restores an entry, and
//! what each of them remembers between looks at the clipboard.
use vstd::prelude::*;

use crate::digest::pixel_hash;
use crate::formatters::{
    blob_hash_of, image_hash_of,
    file_preview, file_restore, file_save, file_scheme, image_preview, image_restore, image_save,
    text_preview, text_restore, text_save, FileFormatter, ImageFormatter, TextFormatter,
};
use crate::history::{
    ClipboardImage, ClipboardSnapshot, EntryView, HistoryEntry, Memo, MemoView, PreviewContent,
    PreviewView, RestorePlan, RestoreView, SavePlan, SaveView, SnapshotView,
};
use crate::text::has_prefix;
use crate::types::ContentType;

verus! {

/// One of the formatters of the registry.
#[derive(Debug, Clone, Copy, PartialEq, Eq, Structural)]
pub enum FormatterKind {
    File,
    Image,
    Text,
}

/// The formatters of the registry, in the order in which they are consulted.
pub open spec fn registry_order() -> Seq<FormatterKind> {
    seq![FormatterKind::File, FormatterKind::Image, FormatterKind::Text]
}

/// The formatter at `position` in the registry order.
pub fn kind_at(position: usize) -> (r: FormatterKind)
    requires
        position < registry_order().len(),
    ensures
        r == registry_order()[position as int],
{
    if position == 0 {
        FormatterKind::File
    } else if position == 1 {
        FormatterKind::Image
    } else {
        FormatterKind::Text
    }
}

/// Whether formatter `k` restores entries of type `ct`.
pub open spec fn kind_handles(k: FormatterKind, ct: ContentType) -> bool {
    match k {
        FormatterKind::File => ct == ContentType::File,
        FormatterKind::Image => ct == ContentType::Image,
        FormatterKind::Text => ct == ContentType::Text,
    }
}

/// Whether formatter `k` records what the snapshot `s` shows.
pub open spec fn kind_can_save(k: FormatterKind, s: SnapshotView) -> bool {
    match k {
        FormatterKind::File => s.text matches Some(t) && has_prefix(t, file_scheme()),
        FormatterKind::Image => s.image is Some,
        FormatterKind::Text => s.text matches Some(t) && !has_prefix(t, file_scheme()),
    }
}

/// The first formatter of the registry that records what `s` shows, if any.
pub open spec fn serializer_for(s: SnapshotView) -> Option<FormatterKind> {
    if kind_can_save(FormatterKind::File, s) {
        Some(FormatterKind::File)
    } else if kind_can_save(FormatterKind::Image, s) {
        Some(FormatterKind::Image)
    } else if kind_can_save(FormatterKind::Text, s) {
        Some(FormatterKind::Text)
    } else {
        None
    }
}

/// What the formatters of the registry remember.
pub ghost struct RegistryView {
    pub file: Seq<char>,
    pub image: u64,
    pub text: Seq<char>,
}

/// A registry whose formatters remember nothing.
pub open spec fn empty_registry() -> RegistryView {
    RegistryView { file: Seq::empty(), image: 0, text: Seq::empty() }
}

/// What formatter `k` does with the snapshot `s`, with `h` as the hash of its image.
pub open spec fn registry_save(r: RegistryView, k: FormatterKind, s: SnapshotView, h: u64) -> SaveView {
    match k {
        FormatterKind::File => file_save(r.file, s.text),
        FormatterKind::Image => image_save(r.image, s.image, h),
        FormatterKind::Text => text_save(r.text, s.text),
    }
}

/// The registry after formatter `k` remembers `m`.
pub open spec fn remembered(r: RegistryView, k: FormatterKind, m: MemoView) -> RegistryView {
    match (k, m) {
        (FormatterKind::File, MemoView::Fingerprint(f)) => RegistryView { file: f, ..r },
        (FormatterKind::Text, MemoView::Fingerprint(f)) => RegistryView { text: f, ..r },
        (FormatterKind::Image, MemoView::ImageHash(h)) => RegistryView { image: h, ..r },
        _ => r,
    }
}

/// The registry after every formatter but `k` forgets what it remembers.
pub open spec fn cleared_except(r: RegistryView, k: FormatterKind) -> RegistryView {
    RegistryView {
        file: if k == FormatterKind::File {
            r.file
        } else {
            Seq::empty()
        },
        image: if k == FormatterKind::Image {
            r.image
        } else {
            0
        },
        text: if k == FormatterKind::Text {
            r.text
        } else {
            Seq::empty()
        },
    }
}

/// The registry after a save by `k` that reported `true`: `k` remembers the memo
/// of what it recorded, if it recorded anything, and the others forget.
pub open spec fn after_save(r: RegistryView, k: FormatterKind, m: Option<MemoView>) -> RegistryView {
    cleared_except(
        match m {
            Some(m) => remembered(r, k, m),
            None => r,
        },
        k,
    )
}

/// What formatter `k` does to restore entry `e`, with `h` as the hash of its stored image.
pub open spec fn registry_restore(k: FormatterKind, e: EntryView, h: u64) -> RestoreView {
    match k {
        FormatterKind::File => file_restore(e),
        FormatterKind::Image => image_restore(e, h),
        FormatterKind::Text => text_restore(e),
    }
}

/// The preview that formatter `k` gives of entry `e`.
pub open spec fn registry_preview(k: FormatterKind, e: EntryView) -> PreviewView {
    match k {
        FormatterKind::File => file_preview(e),
        FormatterKind::Image => image_preview(e),
        FormatterKind::Text => text_preview(e),
    }
}

/// The formatter that restores entries of type `ct`.
pub open spec fn deserializer_for(ct: ContentType) -> FormatterKind {
    match ct {
        ContentType::File => FormatterKind::File,
        ContentType::Image => FormatterKind::Image,
        ContentType::Text => FormatterKind::Text,
    }
}

/// The formatter that restores entries of type `content_type`: the one formatter
/// of the registry that handles it. Every content type has one, so the lookup
/// never fails.
pub fn find_deserializer(content_type: &ContentType) -> (r: FormatterKind)
    ensures
        kind_handles(r, *content_type),
        forall|k: FormatterKind| kind_handles(k, *content_type) ==> k == r,
        r == deserializer_for(*content_type),
{
    match content_type {
        ContentType::File => FormatterKind::File,
        ContentType::Image => FormatterKind::Image,
        ContentType::Text => FormatterKind::Text,
    }
}

/// The formatters of the clipboard service, one per content type.
pub struct Formatters {
    file: FileFormatter,
    image: ImageFormatter,
    text: TextFormatter,
}

impl View for Formatters {
    type V = RegistryView;

    closed spec fn view(&self) -> RegistryView {
        RegistryView {
            file: self.file.memory(),
            image: self.image.memory(),
            text: self.text.memory(),
        }
    }
}

/// Makes every formatter but `active` forget what it remembers.
pub fn clear_all_except(formatters: &mut Formatters, active: FormatterKind)
    ensures
        final(formatters)@ == cleared_except(old(formatters)@, active),
{
    if active != FormatterKind::File {
        formatters.file.clear_memory();
    }
    if active != FormatterKind::Image {
        formatters.image.clear_memory();
    }
    if active != FormatterKind::Text {
        formatters.text.clear_memory();
    }
}

impl Formatters {
    /// The registry: a file, an image and a text formatter, remembering nothing.
    pub fn new() -> (r: Self)
        ensures
            r@ == empty_registry(),
    {
        Formatters {
            file: FileFormatter::new(),
            image: ImageFormatter::new(),
            text: TextFormatter::new(),
        }
    }

    /// Lets each formatter remember what the clipboard holds when the service
    /// starts: the image formatter remembers the image, if there is one.
    pub fn seed_formatters(&mut self, image: Option<&ClipboardImage>)
        ensures
            final(self)@ == match image {
                Some(i) => RegistryView { image: pixel_hash(i.bytes@), ..old(self)@ },
                None => old(self)@,
            },
    {
        self.image.seed_memory(image);
    }

    /// Lets each formatter remember what the clipboard holds when the service
    /// starts, with `hash` as the hash of the image's pixels.
    pub fn seed_formatters_with_hash(&mut self, image: Option<&ClipboardImage>, hash: u64)
        ensures
            final(self)@ == (if image is Some {
                RegistryView { image: hash, ..old(self)@ }
            } else {
                old(self)@
            }),
    {
        self.image.seed_memory_with_hash(image, hash);
    }

    /// The first formatter of the registry that records what `snapshot` shows.
    pub fn find_serializer(&self, snapshot: &ClipboardSnapshot) -> (r: Option<FormatterKind>)
        ensures
            r == serializer_for(snapshot@),
    {
        let text = match &snapshot.text {
            Some(t) => Some(t.as_str()),
            None => None,
        };
        if self.file.can_save(text) {
            Some(FormatterKind::File)
        } else if self.image.can_save(
            match &snapshot.image {
                Some(i) => Some(i),
                None => None,
            },
        ) {
            Some(FormatterKind::Image)
        } else if self.text.can_save(text) {
            Some(FormatterKind::Text)
        } else {
            None
        }
    }

    /// What formatter `kind` does with `snapshot`, with `hash` as the hash of its image.
    pub fn save_with_hash(&self, kind: FormatterKind, snapshot: ClipboardSnapshot, hash: u64) -> (r:
        SavePlan)
        ensures
            r@ == registry_save(self@, kind, snapshot@, hash),
    {
        match kind {
            FormatterKind::File => self.file.save(snapshot.text),
            FormatterKind::Image => self.image.save_with_hash(snapshot.image, hash),
            FormatterKind::Text => self.text.save(snapshot.text),
        }
    }

    /// What formatter `kind` does with `snapshot`.
    pub fn save(&self, kind: FormatterKind, snapshot: ClipboardSnapshot) -> (r: SavePlan)
        ensures
            r@ == registry_save(self@, kind, snapshot@, image_hash_of(snapshot@.image)),
    {
        let ghost seen = snapshot@;
        let r = match kind {
            FormatterKind::File => self.file.save(snapshot.text),
            FormatterKind::Image => self.image.save(snapshot.image),
            FormatterKind::Text => self.text.save(snapshot.text),
        };
        proof {
            assert(r@ == registry_save(self@, kind, seen, image_hash_of(seen.image)));
        }
        r
    }

    /// Concludes a save by `kind` that reported `true`: `kind` remembers `memo`,
    /// when it recorded something, and every other formatter forgets. A memo of
    /// another formatter's kind is not remembered.
    pub fn finish_save(&mut self, kind: FormatterKind, memo: Option<Memo>)
        ensures
            final(self)@ == after_save(
                old(self)@,
                kind,
                match memo {
                    Some(m) => Some(m@),
                    None => None,
                },
            ),
    {
        match (kind, memo) {
            (FormatterKind::File, Some(Memo::Fingerprint(f))) => self.file.remember(f),
            (FormatterKind::Text, Some(Memo::Fingerprint(f))) => self.text.remember(f),
            (FormatterKind::Image, Some(Memo::ImageHash(h))) => self.image.remember(h),
            _ => {},
        }
        clear_all_except(self, kind);
    }

    /// Carries out the rest of a save by `kind` that planned `plan`, once the
    /// watcher has stored the entry of a `Record` plan (`stored` tells whether
    /// that went through). Returns whether the save reported `true`: then `kind`
    /// remembers the memo of what it recorded and every other formatter forgets;
    /// otherwise nothing changes.
    pub fn conclude_save(&mut self, kind: FormatterKind, plan: SavePlan, stored: bool) -> (r: bool)
        ensures
            r == (plan@ is Unchanged || (plan@ is Record && stored)),
            final(self)@ == match plan@ {
                SaveView::Unchanged => after_save(old(self)@, kind, None),
                SaveView::Record { memo, .. } => if stored {
                    after_save(old(self)@, kind, Some(memo))
                } else {
                    old(self)@
                },
                _ => old(self)@,
            },
    {
        match plan {
            SavePlan::Unchanged => {
                self.finish_save(kind, None);
                true
            },
            SavePlan::Record { memo, .. } => {
                if stored {
                    self.finish_save(kind, Some(memo));
                }
                stored
            },
            _ => false,
        }
    }

    /// What formatter `kind` does to restore `entry`.
    pub fn restore(&self, kind: FormatterKind, entry: &HistoryEntry) -> (r: RestorePlan)
        ensures
            r@ == registry_restore(kind, entry@, blob_hash_of(entry@)),
    {
        let r = match kind {
            FormatterKind::File => self.file.restore(entry),
            FormatterKind::Image => self.image.restore(entry),
            FormatterKind::Text => self.text.restore(entry),
        };
        proof {
            assert(r@ == registry_restore(kind, entry@, blob_hash_of(entry@)));
        }
        r
    }

    /// Remembers `hash` as the image put back on the clipboard.
    pub fn remember_restored_image(&mut self, hash: u64)
        ensures
            final(self)@ == (RegistryView { image: hash, ..old(self)@ }),
    {
        self.image.remember(hash);
    }

    /// The preview that formatter `kind` gives of `entry`.
    pub fn get_preview(&self, kind: FormatterKind, entry: &HistoryEntry) -> (r: PreviewContent)
        ensures
            r@ == registry_preview(kind, entry@),
    {
        match kind {
            FormatterKind::File => self.file.get_preview(entry),
            FormatterKind::Image => self.image.get_preview(entry),
            FormatterKind::Text => self.text.get_preview(entry),
        }
    }
}

/// Every content type is handled by exactly one formatter of the registry, so
/// looking up the formatter for an entry always succeeds.
pub proof fn lemma_one_deserializer_per_type(ct: ContentType)
    ensures
        exists|i: int| 0 <= i < registry_order().len() && kind_handles(registry_order()[i], ct),
        forall|i: int, j: int|
            0 <= i < registry_order().len() && 0 <= j < registry_order().len() && kind_handles(
                #[trigger] registry_order()[i],
                ct,
            ) && kind_handles(#[trigger] registry_order()[j], ct) ==> i == j,
{
    let i = match ct {
        ContentType::File => 0int,
        ContentType::Image => 1int,
        ContentType::Text => 2int,
    };
    assert(kind_handles(registry_order()[i], ct));
}

/// The formatter that records what the clipboard shows is the first one of the
/// registry that can record it, and no formatter after it is consulted.
pub proof fn lemma_serializer_is_first(s: SnapshotView)
    ensures
        serializer_for(s) matches Some(k) ==> kind_can_save(k, s) && (forall|i: int|
            0 <= i < registry_order().len() && #[trigger] registry_order()[i] != k && i < (match k {
                FormatterKind::File => 0int,
                FormatterKind::Image => 1int,
                FormatterKind::Text => 2int,
            }) ==> !kind_can_save(registry_order()[i], s)),
        serializer_for(s) is None ==> forall|i: int|
            0 <= i < registry_order().len() ==> !kind_can_save(#[trigger] registry_order()[i], s),
{
}

/// While the clipboard shows the same content, the service records it once: after
/// a save that records it (and remembers it), the same snapshot, whose image has
/// the same hash, is not recorded again.
pub proof fn lemma_service_records_once(r: RegistryView, s: SnapshotView, h: u64)
    requires
        serializer_for(s) is Some,
        registry_save(r, serializer_for(s)->0, s, h) is Record,
    ensures
        ({
            let k = serializer_for(s)->0;
            let m = registry_save(r, k, s, h)->memo;
            let r2 = after_save(r, k, Some(m));
            &&& serializer_for(s) == Some(k)
            &&& !(registry_save(r2, k, s, h) is Record)
        }),
{
}

/// Once the clipboard shows content that the service has seen, the save reports
/// it unchanged (text and file references) or skips it (images), and the
/// registry keeps what it remembers for the formatter that reported.
pub proof fn lemma_unchanged_keeps_memory(r: RegistryView, s: SnapshotView, h: u64)
    requires
        serializer_for(s) is Some,
        registry_save(r, serializer_for(s)->0, s, h) is Unchanged,
    ensures
        ({
            let k = serializer_for(s)->0;
            let r2 = after_save(r, k, None);
            registry_save(r2, k, s, h) is Unchanged
        }),
{
}

/// Restoring a recorded text or file reference puts back exactly the text that
/// was on the clipboard when it was recorded.
pub proof fn lemma_restore_gives_back_recorded_text(
    r: RegistryView,
    k: FormatterKind,
    s: SnapshotView,
    h: u64,
    h2: u64,
)
    requires
        k != FormatterKind::Image,
        registry_save(r, k, s, h) is Record,
    ensures
        ({
            let e = registry_save(r, k, s, h)->entry;
            &&& s.text is Some
            &&& registry_restore(deserializer_for(e.content_type), e, h2) == RestoreView::SetText(
                s.text->0,
            )
        }),
{
}

} // verus!
