use std::collections::hash_map::DefaultHasher;
use std::hash::{Hash, Hasher};
use cliprust::formatters::{FileFormatter, ImageFormatter, TextFormatter};
use cliprust::history::{
    ClipboardImage, ClipboardSnapshot, HistoryEntry, Memo, PreviewContent, RestorePlan, SavePlan,
};
use cliprust::gui::preview_pixels;
use cliprust::registry::{clear_all_except, find_deserializer, FormatterKind, Formatters};
use cliprust::types::ContentType;

fn text_snapshot(t: &str) -> ClipboardSnapshot {
    ClipboardSnapshot { text: Some(t.to_string()), image: None }
}

fn red_green() -> ClipboardImage {
    ClipboardImage { width: 2, height: 1, bytes: vec![255, 0, 0, 255, 0, 255, 0, 255] }
}

fn image_snapshot() -> ClipboardSnapshot {
    ClipboardSnapshot { text: None, image: Some(red_green()) }
}

fn record(plan: SavePlan) -> (HistoryEntry, Memo) {
    match plan {
        SavePlan::Record { entry, memo } => (entry, memo),
        other => panic!("expected a record, got {:?}", other),
    }
}

#[test]
fn deserializer_per_content_type() {
    assert_eq!(find_deserializer(&ContentType::File), FormatterKind::File);
    assert_eq!(find_deserializer(&ContentType::Image), FormatterKind::Image);
    assert_eq!(find_deserializer(&ContentType::Text), FormatterKind::Text);
}

#[test]
fn serializer_choice() {
    let f = Formatters::new();
    assert_eq!(f.find_serializer(&text_snapshot("file:///a/b")), Some(FormatterKind::File));
    assert_eq!(f.find_serializer(&text_snapshot("hello")), Some(FormatterKind::Text));
    assert_eq!(f.find_serializer(&image_snapshot()), Some(FormatterKind::Image));
    let both = ClipboardSnapshot { text: Some("hello".to_string()), image: Some(red_green()) };
    assert_eq!(f.find_serializer(&both), Some(FormatterKind::Image));
    let both_file = ClipboardSnapshot { text: Some("file:///x".to_string()), image: Some(red_green()) };
    assert_eq!(f.find_serializer(&both_file), Some(FormatterKind::File));
    let empty = ClipboardSnapshot { text: None, image: None };
    assert_eq!(f.find_serializer(&empty), None);
}

#[test]
fn text_is_recorded_once() {
    let mut f = Formatters::new();
    let (entry, memo) = record(f.save(FormatterKind::Text, text_snapshot("hello")));
    assert_eq!(entry.content_type, ContentType::Text);
    assert_eq!(entry.text_content.as_deref(), Some("hello"));
    assert_eq!(entry.image_blob, None);
    assert_eq!(
        memo,
        Memo::Fingerprint("2cf24dba5fb0a30e26e83b2ac5b9e29e1b161e5c1fa7425e73043362938b9824".to_string())
    );
    f.finish_save(FormatterKind::Text, Some(memo));
    assert_eq!(f.save(FormatterKind::Text, text_snapshot("hello")), SavePlan::Unchanged);
    f.finish_save(FormatterKind::Text, None);
    assert_eq!(f.save(FormatterKind::Text, text_snapshot("hello")), SavePlan::Unchanged);
    // other content is recorded
    record(f.save(FormatterKind::Text, text_snapshot("world")));
}

#[test]
fn blank_and_missing_text_are_skipped() {
    let f = Formatters::new();
    assert_eq!(f.save(FormatterKind::Text, text_snapshot(" \n\t")), SavePlan::Skip);
    assert_eq!(f.save(FormatterKind::Text, ClipboardSnapshot { text: None, image: None }), SavePlan::Skip);
}

#[test]
fn unreadable_file_text_fails() {
    let f = Formatters::new();
    assert_eq!(
        f.save(FormatterKind::File, ClipboardSnapshot { text: None, image: None }),
        SavePlan::Unreadable
    );
}

#[test]
fn file_reference_is_recorded_once() {
    let mut f = Formatters::new();
    let (entry, memo) = record(f.save(FormatterKind::File, text_snapshot("file:///home/a.txt")));
    assert_eq!(entry.content_type, ContentType::File);
    f.finish_save(FormatterKind::File, Some(memo));
    assert_eq!(f.save(FormatterKind::File, text_snapshot("file:///home/a.txt")), SavePlan::Unchanged);
}

#[test]
fn saving_one_kind_clears_the_others() {
    let mut f = Formatters::new();
    let (_, memo) = record(f.save(FormatterKind::Text, text_snapshot("hello")));
    f.finish_save(FormatterKind::Text, Some(memo));
    let (_, memo) = record(f.save(FormatterKind::File, text_snapshot("file:///x")));
    f.finish_save(FormatterKind::File, Some(memo));
    // the text formatter forgot "hello"
    record(f.save(FormatterKind::Text, text_snapshot("hello")));
    clear_all_except(&mut f, FormatterKind::Text);
    // the file formatter forgot its reference
    record(f.save(FormatterKind::File, text_snapshot("file:///x")));
}

#[test]
fn image_is_recorded_once_as_png() {
    let mut f = Formatters::new();
    let (entry, memo) = record(f.save(FormatterKind::Image, image_snapshot()));
    assert_eq!(entry.content_type, ContentType::Image);
    let png = entry.image_blob.clone().unwrap();
    assert_eq!(&png[..8], &[0x89, b'P', b'N', b'G', 0x0D, 0x0A, 0x1A, 0x0A]);
    f.finish_save(FormatterKind::Image, Some(memo));
    assert_eq!(f.save(FormatterKind::Image, image_snapshot()), SavePlan::Skip);
}

#[test]
fn image_too_short_is_skipped() {
    let f = Formatters::new();
    let bad = ClipboardSnapshot {
        text: None,
        image: Some(ClipboardImage { width: 4, height: 4, bytes: vec![0; 10] }),
    };
    assert_eq!(f.save(FormatterKind::Image, bad), SavePlan::Skip);
}

#[test]
fn seeded_image_is_not_recorded() {
    let mut f = Formatters::new();
    let image = red_green();
    f.seed_formatters(Some(&image));
    assert_eq!(f.save(FormatterKind::Image, image_snapshot()), SavePlan::Skip);
}

#[test]
fn restore_gives_back_recorded_text() {
    let f = Formatters::new();
    let (entry, _) = record(f.save(FormatterKind::Text, text_snapshot("copy me")));
    let kind = find_deserializer(&entry.content_type);
    assert_eq!(f.restore(kind, &entry), RestorePlan::SetText("copy me".to_string()));
}

#[test]
fn restore_gives_back_recorded_image() {
    let f = Formatters::new();
    let (entry, _) = record(f.save(FormatterKind::Image, image_snapshot()));
    match f.restore(FormatterKind::Image, &entry) {
        RestorePlan::SetImage { width, height, pixels, .. } => {
            assert_eq!((width, height), (2, 1));
            assert_eq!(pixels, red_green().bytes);
        }
        other => panic!("unexpected {:?}", other),
    }
}

#[test]
fn restore_refusals() {
    let f = Formatters::new();
    let text = HistoryEntry { content_type: ContentType::Text, text_content: Some("t".to_string()), image_blob: None };
    assert_eq!(f.restore(FormatterKind::Image, &text), RestorePlan::Nothing);
    let broken = HistoryEntry { content_type: ContentType::Image, text_content: None, image_blob: Some(vec![1, 2, 3]) };
    assert_eq!(f.restore(FormatterKind::Image, &broken), RestorePlan::Undecodable);
    let no_text = HistoryEntry { content_type: ContentType::Text, text_content: None, image_blob: None };
    assert_eq!(f.restore(FormatterKind::Text, &no_text), RestorePlan::Nothing);
    // the file formatter restores any entry that has text
    assert_eq!(f.restore(FormatterKind::File, &text), RestorePlan::SetText("t".to_string()));
}

#[test]
fn formatter_previews() {
    let file = FileFormatter::new();
    let entry = HistoryEntry { content_type: ContentType::File, text_content: Some("file:///a/b/c.txt".to_string()), image_blob: None };
    assert_eq!(file.get_preview(&entry), PreviewContent::Text("\u{1F4C1} c.txt".to_string()));
    let text = TextFormatter::new();
    let long = HistoryEntry { content_type: ContentType::Text, text_content: Some("q".repeat(90)), image_blob: None };
    assert_eq!(text.get_preview(&long), PreviewContent::Text(format!("{}...", "q".repeat(77))));
    let none = HistoryEntry { content_type: ContentType::Text, text_content: None, image_blob: None };
    assert_eq!(text.get_preview(&none), PreviewContent::Text(String::new()));
    let image = ImageFormatter::new();
    assert_eq!(image.get_preview(&none), PreviewContent::Text("[Image Rendering Error]".to_string()));
}

#[test]
fn image_thumbnails() {
    let f = Formatters::new();
    let (entry, _) = record(f.save(FormatterKind::Image, image_snapshot()));
    match f.get_preview(FormatterKind::Image, &entry) {
        PreviewContent::Image(bytes) => assert_eq!(&bytes[..4], &[0x89, b'P', b'N', b'G']),
        other => panic!("unexpected {:?}", other),
    }
    let thumb = ImageFormatter::generate_thumbnail(entry.image_blob.as_ref().unwrap()).unwrap();
    assert_eq!(&thumb[1..4], b"PNG");
    assert_eq!(ImageFormatter::generate_thumbnail(&[0, 1, 2]), None);
    // a 2 by 1 image is scaled up to meet the 150-pixel box, keeping its proportion
    let (w, h, _) = preview_pixels(&thumb).unwrap();
    assert_eq!((w, h), (150, 75));
}

#[test]
fn thumbnail_of_a_tall_image() {
    let f = Formatters::new();
    let tall = ClipboardSnapshot {
        text: None,
        image: Some(ClipboardImage { width: 3, height: 400, bytes: vec![7; 3 * 400 * 4] }),
    };
    let (entry, _) = record(f.save(FormatterKind::Image, tall));
    let thumb = ImageFormatter::generate_thumbnail(entry.image_blob.as_ref().unwrap()).unwrap();
    let (w, h, _) = preview_pixels(&thumb).unwrap();
    assert_eq!(h, 150);
    assert!(w >= 1 && w <= 150);
    // 3 * 150 / 400 = 1.125 rounds to 1
    assert_eq!(w, 1);
}

#[test]
fn image_with_a_short_buffer_is_not_recorded() {
    let f = Formatters::new();
    let short = ClipboardSnapshot {
        text: None,
        image: Some(ClipboardImage { width: 2, height: 2, bytes: vec![0; 15] }),
    };
    assert_eq!(f.save(FormatterKind::Image, short), SavePlan::Skip);
}

#[test]
fn formatters_handle_their_own_type() {
    assert!(FileFormatter::new().can_handle(&ContentType::File));
    assert!(!FileFormatter::new().can_handle(&ContentType::Text));
    assert!(ImageFormatter::new().can_handle(&ContentType::Image));
    assert!(TextFormatter::new().can_handle(&ContentType::Text));
    assert!(!TextFormatter::new().can_handle(&ContentType::Image));
}

#[test]
fn conclude_save_steps() {
    let mut f = Formatters::new();
    assert!(!f.conclude_save(FormatterKind::Text, SavePlan::Skip, true));
    let plan = f.save(FormatterKind::Text, text_snapshot("kept"));
    // a record whose insert failed leaves every memory as it was
    assert!(!f.conclude_save(FormatterKind::Text, plan.clone(), false));
    assert!(matches!(f.save(FormatterKind::Text, text_snapshot("kept")), SavePlan::Record { .. }));
    assert!(f.conclude_save(FormatterKind::Text, plan, true));
    assert_eq!(f.save(FormatterKind::Text, text_snapshot("kept")), SavePlan::Unchanged);
    assert!(f.conclude_save(FormatterKind::Text, SavePlan::Unchanged, true));
    assert_eq!(f.save(FormatterKind::Text, text_snapshot("kept")), SavePlan::Unchanged);
    assert!(!f.conclude_save(FormatterKind::Text, SavePlan::Unreadable, false));
}

#[test]
fn finish_save_ignores_a_memo_of_another_kind() {
    let mut f = Formatters::new();
    let (_, memo) = record(f.save(FormatterKind::Text, text_snapshot("other")));
    f.finish_save(FormatterKind::Image, Some(memo));
    assert!(matches!(f.save(FormatterKind::Text, text_snapshot("other")), SavePlan::Record { .. }));
}

#[test]
fn image_hash_is_that_of_the_byte_slice() {
    // the restore remembers the hash of the stored PNG bytes
    let f = Formatters::new();
    let (entry, _) = record(f.save(FormatterKind::Image, image_snapshot()));
    let mut hasher = DefaultHasher::new();
    entry.image_blob.as_ref().unwrap().as_slice().hash(&mut hasher);
    let expected = hasher.finish();
    match f.restore(FormatterKind::Image, &entry) {
        RestorePlan::SetImage { hash, .. } => assert_eq!(hash, expected),
        other => panic!("unexpected {:?}", other),
    }
}
