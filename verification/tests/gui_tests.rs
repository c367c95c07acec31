use cliprust::gui::{format_bidi, make_item, preview_pixels, GuiItem, HistoryPage, PageRequest, StoredEntry};
use cliprust::history::{ClipboardImage, ClipboardSnapshot, HistoryEntry, PreviewContent, SavePlan};
use cliprust::registry::{FormatterKind, Formatters};
use cliprust::types::ContentType;

fn row(id: i64, text: &str) -> StoredEntry {
    StoredEntry {
        id,
        is_pinned: false,
        entry: HistoryEntry { content_type: ContentType::Text, text_content: Some(text.to_string()), image_blob: None },
    }
}

#[test]
fn bidi_layout() {
    assert_eq!(format_bidi(""), "");
    assert_eq!(format_bidi("abc"), "abc");
    assert_eq!(format_bidi("\u{05E9}\u{05DC}\u{05D5}\u{05DD}"), "\u{05DD}\u{05D5}\u{05DC}\u{05E9}");
    // only the first paragraph is shown
    assert_eq!(format_bidi("first\nsecond"), "first\n");
}

#[test]
fn paging_through_history() {
    let f = Formatters::new();
    let mut page = HistoryPage::new(2);
    assert_eq!(page.begin_load(""), Some(PageRequest::All { limit: 2, offset: 0 }));
    assert!(page.is_loading());
    page.finish_load(&f, Some(vec![row(1, "a"), row(2, "b")]));
    assert!(!page.is_loading());
    assert!(page.has_more());
    assert_eq!(page.items().len(), 2);
    assert_eq!(
        page.begin_load("  foo \n"),
        Some(PageRequest::Search { query: "foo".to_string(), limit: 2, offset: 2 })
    );
    page.finish_load(&f, Some(vec![row(3, "c")]));
    assert!(!page.has_more());
    assert_eq!(page.items().len(), 3);
    assert_eq!(page.begin_load(""), None);
    page.reset();
    assert!(page.has_more());
    assert!(page.items().is_empty());
    assert_eq!(page.begin_load(""), Some(PageRequest::All { limit: 2, offset: 0 }));
}

#[test]
fn failed_page_ends_paging() {
    let f = Formatters::new();
    let mut page = HistoryPage::new(10);
    page.begin_load("");
    page.finish_load(&f, None);
    assert!(!page.has_more());
    assert_eq!(page.begin_load(""), None);
}

#[test]
fn list_items_use_formatter_previews() {
    let f = Formatters::new();
    let item = make_item(&f, &row(5, "\u{05D0}\u{05D1}"));
    assert_eq!(item, GuiItem { id: 5, preview: PreviewContent::Text("\u{05D1}\u{05D0}".to_string()), is_pinned: false });
    let file = StoredEntry {
        id: 6,
        is_pinned: true,
        entry: HistoryEntry { content_type: ContentType::File, text_content: Some("file:///d/e".to_string()), image_blob: None },
    };
    assert_eq!(make_item(&f, &file).preview, PreviewContent::Text("\u{1F4C1} e".to_string()));
}


#[test]
fn image_previews_decode_to_pixels() {
    let pixels = vec![255, 0, 0, 255, 0, 255, 0, 255];
    let shown = ClipboardSnapshot {
        text: None,
        image: Some(ClipboardImage { width: 2, height: 1, bytes: pixels.clone() }),
    };
    let png = match Formatters::new().save(FormatterKind::Image, shown) {
        SavePlan::Record { entry, .. } => entry.image_blob.unwrap(),
        other => panic!("unexpected {:?}", other),
    };
    assert_eq!(preview_pixels(&png), Some((2, 1, pixels)));
    assert_eq!(preview_pixels(&[1, 2, 3]), None);
}
