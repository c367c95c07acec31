//! The history window's model: the items it lists, how it pages through the
//! history (all of it, or the entries that match a search), and how previews
//! are laid out for right-to-left scripts.
use vstd::prelude::*;

use crate::history::{HistoryEntry, PreviewContent, PreviewView, EntryView};
use crate::imaging::{decode_rgba, rgba_decoding};
use crate::registry::{deserializer_for, find_deserializer, registry_preview, Formatters};
use crate::text::{blank, is_blank, trim, trimmed};

use unicode_bidi::BidiInfo;

verus! {

/// The first paragraph of `text` in display order, as the Unicode bidirectional
/// algorithm lays it out on one line.
pub uninterp spec fn bidi_visual_line(text: Seq<char>) -> Seq<char>;

/// `unicode_bidi::BidiInfo::new(text, None).paragraphs.len()`: the number of
/// paragraphs of `text`. The algorithm opens a paragraph for every paragraph
/// separator and one for any text after the last, so the count is zero exactly
/// for the empty text; how many there are otherwise is not stated.
#[verifier::external_body]
fn bidi_paragraph_count(text: &str) -> (r: usize)
    ensures
        (r == 0) == (text@.len() == 0),
{
    BidiInfo::new(text, None).paragraphs.len()
}

/// `unicode_bidi::BidiInfo::reorder_line` on the whole of the first paragraph of
/// `text`: that paragraph in display order, left to the name `bidi_visual_line`.
#[verifier::external_body]
fn bidi_first_paragraph(text: &str) -> (r: String)
    requires
        text@.len() > 0,
    ensures
        r@ == bidi_visual_line(text@),
{
    let info = BidiInfo::new(text, None);
    let para = &info.paragraphs[0];
    info.reorder_line(para, para.range.clone()).into_owned()
}

/// How a line of text is shown: the empty text as it is, any other text as its
/// first paragraph in display order.
pub open spec fn bidi_display(text: Seq<char>) -> Seq<char> {
    if text.len() == 0 {
        text
    } else {
        bidi_visual_line(text)
    }
}

/// `text` laid out for display, right-to-left runs reversed.
pub fn format_bidi(text: &str) -> (r: String)
    ensures
        r@ == bidi_display(text@),
{
    if bidi_paragraph_count(text) == 0 {
        return text.to_owned();
    }
    bidi_first_paragraph(text)
}

/// One item of the history list.
#[derive(Debug, Clone, PartialEq, Eq)]
pub struct GuiItem {
    pub id: i64,
    pub preview: PreviewContent,
    pub is_pinned: bool,
}

/// A list item as plain values.
pub ghost struct GuiItemView {
    pub id: i64,
    pub preview: PreviewView,
    pub is_pinned: bool,
}

impl View for GuiItem {
    type V = GuiItemView;

    open spec fn view(&self) -> GuiItemView {
        GuiItemView { id: self.id, preview: self.preview@, is_pinned: self.is_pinned }
    }
}

/// A stored history entry with its id and pin status, as a page of history returns it.
#[derive(Debug, Clone, PartialEq, Eq)]
pub struct StoredEntry {
    pub id: i64,
    pub is_pinned: bool,
    pub entry: HistoryEntry,
}

/// A stored entry as plain values.
pub ghost struct StoredView {
    pub id: i64,
    pub is_pinned: bool,
    pub entry: EntryView,
}

impl View for StoredEntry {
    type V = StoredView;

    open spec fn view(&self) -> StoredView {
        StoredView { id: self.id, is_pinned: self.is_pinned, entry: self.entry@ }
    }
}

/// The preview that the list shows for an entry: the one its formatter gives,
/// with text laid out for display.
pub open spec fn list_preview(e: EntryView) -> PreviewView {
    match registry_preview(deserializer_for(e.content_type), e) {
        PreviewView::Text(t) => PreviewView::Text(bidi_display(t)),
        PreviewView::Image(b) => PreviewView::Image(b),
    }
}

/// The list item for a stored entry.
pub open spec fn item_of(s: StoredView) -> GuiItemView {
    GuiItemView { id: s.id, preview: list_preview(s.entry), is_pinned: s.is_pinned }
}

/// The list item for `stored`.
pub fn make_item(formatters: &Formatters, stored: &StoredEntry) -> (r: GuiItem)
    ensures
        r@ == item_of(stored@),
{
    let kind = find_deserializer(&stored.entry.content_type);
    let preview = match formatters.get_preview(kind, &stored.entry) {
        PreviewContent::Text(t) => PreviewContent::Text(format_bidi(t.as_str())),
        PreviewContent::Image(b) => PreviewContent::Image(b),
    };
    GuiItem { id: stored.id, preview, is_pinned: stored.is_pinned }
}

/// The pixels of an image preview, as the window draws it: its width, its
/// height and its RGBA pixels, row by row; `None` when the preview does not
/// decode.
pub fn preview_pixels(preview: &[u8]) -> (r: Option<(usize, usize, Vec<u8>)>)
    ensures
        r matches Some(d) ==> rgba_decoding(preview@) matches Some(x) && d.0 == x.0 && d.1 == x.1
            && d.2@ == x.2,
        r is None <==> rgba_decoding(preview@) is None,
{
    match decode_rgba(preview) {
        Some((width, height, pixels)) => Some((width as usize, height as usize, pixels)),
        None => None,
    }
}

/// A request for one page of the history.
#[derive(Debug, Clone, PartialEq, Eq)]
pub enum PageRequest {
    /// The entries of the whole history, `limit` of them after the first `offset`.
    All { limit: i64, offset: i64 },
    /// The entries that match `query`, `limit` of them after the first `offset`.
    Search { query: String, limit: i64, offset: i64 },
}

/// A page request as plain values.
pub ghost enum RequestView {
    All { limit: i64, offset: i64 },
    Search { query: Seq<char>, limit: i64, offset: i64 },
}

impl View for PageRequest {
    type V = RequestView;

    open spec fn view(&self) -> RequestView {
        match self {
            PageRequest::All { limit, offset } => RequestView::All { limit: *limit, offset: *offset },
            PageRequest::Search { query, limit, offset } => RequestView::Search {
                query: query@,
                limit: *limit,
                offset: *offset,
            },
        }
    }
}

/// The state of the history list.
pub ghost struct PageView {
    pub items: Seq<GuiItemView>,
    pub limit: i64,
    pub offset: i64,
    pub has_more: bool,
    pub is_loading: bool,
}

/// The history list: the items shown so far and where the next page starts.
pub struct HistoryPage {
    items: Vec<GuiItem>,
    limit: i64,
    offset: i64,
    has_more: bool,
    is_loading: bool,
}

impl View for HistoryPage {
    type V = PageView;

    closed spec fn view(&self) -> PageView {
        PageView {
            items: self.items@.map_values(|i: GuiItem| i@),
            limit: self.limit,
            offset: self.offset,
            has_more: self.has_more,
            is_loading: self.is_loading,
        }
    }
}

/// The request for the next page, if the list may have more: the search when
/// the trimmed query is not empty, the whole history otherwise.
pub open spec fn next_request(p: PageView, query: Seq<char>) -> Option<RequestView> {
    if !p.has_more {
        None
    } else if is_blank(query) {
        Some(RequestView::All { limit: p.limit, offset: p.offset })
    } else {
        Some(RequestView::Search { query: trim(query), limit: p.limit, offset: p.offset })
    }
}

/// The list after a page arrives (`None` when the request failed): a failed
/// request ends the paging; a page shorter than the limit is the last one; the
/// next page starts a limit further on.
pub open spec fn after_page(p: PageView, rows: Option<Seq<StoredView>>) -> PageView {
    match rows {
        None => PageView { has_more: false, is_loading: false, ..p },
        Some(r) => PageView {
            items: p.items + r.map_values(|s: StoredView| item_of(s)),
            limit: p.limit,
            offset: (p.offset + p.limit) as i64,
            has_more: p.has_more && r.len() >= p.limit,
            is_loading: false,
        },
    }
}

impl HistoryPage {
    /// An empty list that pages `limit` entries at a time.
    pub fn new(limit: i64) -> (r: Self)
        ensures
            r@ == (PageView {
                items: Seq::empty(),
                limit,
                offset: 0,
                has_more: true,
                is_loading: false,
            }),
    {
        let r = HistoryPage { items: Vec::new(), limit, offset: 0, has_more: true, is_loading: false };
        assert(r@.items =~= Seq::<GuiItemView>::empty());
        r
    }

    /// The items shown so far.
    pub fn items(&self) -> (r: &Vec<GuiItem>)
        ensures
            r@.map_values(|i: GuiItem| i@) == self@.items,
    {
        &self.items
    }

    /// Whether more entries may follow.
    pub fn has_more(&self) -> (r: bool)
        ensures
            r == self@.has_more,
    {
        self.has_more
    }

    /// Whether a page is being loaded.
    pub fn is_loading(&self) -> (r: bool)
        ensures
            r == self@.is_loading,
    {
        self.is_loading
    }

    /// Starts loading the next page for the search text `search_query`: the
    /// request to make, or `None` when the list has no more entries.
    pub fn begin_load(&mut self, search_query: &str) -> (r: Option<PageRequest>)
        ensures
            match r {
                Some(q) => next_request(old(self)@, search_query@) == Some(q@),
                None => next_request(old(self)@, search_query@) is None,
            },
            final(self)@ == (if old(self)@.has_more {
                PageView { is_loading: true, ..old(self)@ }
            } else {
                old(self)@
            }),
    {
        if !self.has_more {
            return None;
        }
        self.is_loading = true;
        if blank(search_query) {
            Some(PageRequest::All { limit: self.limit, offset: self.offset })
        } else {
            Some(
                PageRequest::Search {
                    query: trimmed(search_query),
                    limit: self.limit,
                    offset: self.offset,
                },
            )
        }
    }

    /// Takes in the page that a request returned (`None` when it failed).
    pub fn finish_load(&mut self, formatters: &Formatters, rows: Option<Vec<StoredEntry>>)
        requires
            rows is Some ==> old(self)@.offset + old(self)@.limit <= i64::MAX,
            rows is Some ==> old(self)@.offset + old(self)@.limit >= i64::MIN,
        ensures
            final(self)@ == after_page(
                old(self)@,
                match rows {
                    Some(v) => Some(v@.map_values(|s: StoredEntry| s@)),
                    None => None,
                },
            ),
    {
        match rows {
            Some(entries) => {
                if self.limit > 0 && (entries.len() as u128) < (self.limit as u128) {
                    self.has_more = false;
                }
                let ghost start = self@;
                let ghost before = self@.items;
                let mut i: usize = 0;
                while i < entries.len()
                    invariant
                        i <= entries@.len(),
                        self.offset == start.offset,
                        self.limit == start.limit,
                        self.has_more == start.has_more,
                        self.is_loading == start.is_loading,
                        start.offset + start.limit <= i64::MAX,
                        start.offset + start.limit >= i64::MIN,
                        self.items@.map_values(|g: GuiItem| g@) == before + entries@.take(
                            i as int,
                        ).map_values(|s: StoredEntry| item_of(s@)),
                    decreases entries@.len() - i,
                {
                    let item = make_item(formatters, &entries[i]);
                    let ghost old_items = self.items@;
                    self.items.push(item);
                    assert(self.items@.map_values(|g: GuiItem| g@) =~= old_items.map_values(
                        |g: GuiItem| g@,
                    ).push(item@));
                    assert(entries@.take(i + 1).map_values(|s: StoredEntry| item_of(s@))
                        =~= entries@.take(i as int).map_values(|s: StoredEntry| item_of(s@)).push(
                        item@,
                    ));
                    i = i + 1;
                }
                assert(entries@.take(entries@.len() as int) =~= entries@);
                assert(entries@.map_values(|s: StoredEntry| item_of(s@)) =~= entries@.map_values(
                    |s: StoredEntry| s@,
                ).map_values(|s: StoredView| item_of(s)));
                self.offset = self.offset + self.limit;
            },
            None => {
                self.has_more = false;
            },
        }
        self.is_loading = false;
    }

    /// Empties the list and starts paging from the first entry again (after the
    /// search changes, the history is cleared or a pin is toggled).
    pub fn reset(&mut self)
        ensures
            final(self)@ == (PageView {
                items: Seq::empty(),
                offset: 0,
                has_more: true,
                ..old(self)@
            }),
    {
        self.items.clear();
        self.offset = 0;
        self.has_more = true;
        assert(self@.items =~= Seq::<GuiItemView>::empty());
    }
}

/// A page shorter than the limit is the last one: no further page is requested
/// until the list is reset.
pub proof fn lemma_short_page_ends_paging(p: PageView, rows: Seq<StoredView>, query: Seq<char>)
    requires
        rows.len() < p.limit,
    ensures
        next_request(after_page(p, Some(rows)), query) is None,
{
}

/// Each page is requested right after the entries already listed: after a full
/// page arrives, the next request starts a limit further on, and the listed items
/// are those of the earlier pages followed by those of the new one.
pub proof fn lemma_pages_follow_each_other(p: PageView, rows: Seq<StoredView>, query: Seq<char>)
    requires
        p.has_more,
        rows.len() >= p.limit,
        i64::MIN <= p.offset + p.limit <= i64::MAX,
    ensures
        next_request(after_page(p, Some(rows)), query) matches Some(q) && match q {
            RequestView::All { limit, offset } => offset == p.offset + p.limit && limit == p.limit,
            RequestView::Search { limit, offset, .. } => offset == p.offset + p.limit && limit
                == p.limit,
        },
        after_page(p, Some(rows)).items.len() == p.items.len() + rows.len(),
{
}

/// A page that arrives is added after the items already listed, which keep
/// their places, and its rows follow in the order they came.
pub proof fn lemma_page_is_appended(p: PageView, rows: Seq<StoredView>)
    ensures
        after_page(p, Some(rows)).items.len() == p.items.len() + rows.len(),
        forall|i: int| 0 <= i < p.items.len() ==> #[trigger] after_page(p, Some(rows)).items[i] == p.items[i],
        forall|i: int|
            0 <= i < rows.len() ==> #[trigger] after_page(p, Some(rows)).items[p.items.len() + i]
                == item_of(rows[i]),
{
}

} // verus!
