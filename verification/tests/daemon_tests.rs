use cliprust::dispatch::{background_action, handle_command, server_action, ServerAction, ServiceAction};
use cliprust::extractors::{get_all, DaemonStep, FileExtractor, ImageExtractor, TextExtractor};
use cliprust::history::{ClipboardImage, ClipboardSnapshot, HistoryEntry, PreviewContent, RestorePlan, SavePlan};
use cliprust::registry::FormatterKind;
use cliprust::types::{Command, ContentType};

fn text_snapshot(t: &str) -> ClipboardSnapshot {
    ClipboardSnapshot { text: Some(t.to_string()), image: None }
}

#[test]
fn daemon_tries_extractors_in_order() {
    let ex = get_all();
    let (at, plan) = ex.plan_save(0, &text_snapshot("file:///etc/hosts"));
    assert_eq!(at, 0);
    assert!(matches!(plan, SavePlan::Record { .. }));
    let (at, plan) = ex.plan_save(0, &text_snapshot("plain"));
    assert_eq!(at, 2);
    assert!(matches!(plan, SavePlan::Record { .. }));
    let (at, plan) = ex.plan_save(0, &text_snapshot("   "));
    assert_eq!((at, plan), (3, SavePlan::Skip));
    // a file reference is recorded as text when the file extractor is passed over
    let (at, _) = ex.plan_save(1, &text_snapshot("file:///etc/hosts"));
    assert_eq!(at, 2);
}

#[test]
fn daemon_forgets_after_every_save() {
    let mut ex = get_all();
    let snap = text_snapshot("again");
    let (at, plan) = ex.plan_save(0, &snap);
    let memo = match plan {
        SavePlan::Record { memo, .. } => memo,
        other => panic!("unexpected {:?}", other),
    };
    ex.remember(FormatterKind::Text, memo);
    let (_, plan) = ex.plan_save(0, &snap);
    assert_eq!(plan, SavePlan::Unchanged);
    assert_eq!(at, 2);
    ex.clear_all();
    // after the daemon clears every memory, the same text is recorded again
    assert!(matches!(ex.plan_save(0, &snap).1, SavePlan::Record { .. }));
}

#[test]
fn daemon_image_save() {
    let ex = get_all();
    let snap = ClipboardSnapshot {
        text: None,
        image: Some(ClipboardImage { width: 1, height: 1, bytes: vec![1, 2, 3, 4] }),
    };
    let (at, plan) = ex.plan_save(0, &snap);
    assert_eq!(at, 1);
    match plan {
        SavePlan::Record { entry, .. } => {
            assert_eq!(entry.content_type, ContentType::Image);
            assert!(entry.image_blob.unwrap().starts_with(&[0x89, b'P']));
        }
        other => panic!("unexpected {:?}", other),
    }
}

#[test]
fn copy_by_id_picks_the_matching_extractor() {
    let ex = get_all();
    let file = HistoryEntry { content_type: ContentType::File, text_content: Some("file:///a".to_string()), image_blob: None };
    assert_eq!(ex.plan_restore(&file), Some((FormatterKind::File, RestorePlan::SetText("file:///a".to_string()))));
    let text = HistoryEntry { content_type: ContentType::Text, text_content: Some("t".to_string()), image_blob: None };
    assert_eq!(ex.plan_restore(&text), Some((FormatterKind::Text, RestorePlan::SetText("t".to_string()))));
    let empty = HistoryEntry { content_type: ContentType::Text, text_content: None, image_blob: None };
    assert_eq!(ex.plan_restore(&empty), None);
    let broken = HistoryEntry { content_type: ContentType::Image, text_content: None, image_blob: Some(vec![9]) };
    assert_eq!(ex.plan_restore(&broken), Some((FormatterKind::Image, RestorePlan::Undecodable)));
}

#[test]
fn extractor_previews() {
    let file = HistoryEntry { content_type: ContentType::File, text_content: Some("/tmp/x/y.png".to_string()), image_blob: None };
    assert_eq!(FileExtractor::new().get_preview(&file), PreviewContent::Text("\u{1F4C1} File: y.png".to_string()));
    let nothing = HistoryEntry { content_type: ContentType::File, text_content: None, image_blob: None };
    assert_eq!(FileExtractor::new().get_preview(&nothing), PreviewContent::Text("\u{1F4C1} File: Unknown".to_string()));
    let text = HistoryEntry { content_type: ContentType::Text, text_content: Some("0123456789".repeat(4)), image_blob: None };
    assert_eq!(TextExtractor::new().get_preview(&text), PreviewContent::Text(format!("{}...", &"0123456789".repeat(3)[..27])));
    assert_eq!(
        ImageExtractor::new().get_preview(&text),
        PreviewContent::Text("[\u{1F5BC}\u{FE0F} Image Binary Data]".to_string())
    );
}

#[test]
fn extractors_handle_their_own_type() {
    assert!(FileExtractor::new().can_handle(&ContentType::File));
    assert!(ImageExtractor::new().can_handle(&ContentType::Image));
    assert!(TextExtractor::new().can_handle(&ContentType::Text));
    assert!(!TextExtractor::new().can_handle(&ContentType::File));
}

#[test]
fn file_extractor_only_takes_file_references() {
    let f = FileExtractor::new();
    assert_eq!(f.try_save(Some("plain")), SavePlan::Skip);
    assert_eq!(f.try_save(None), SavePlan::Skip);
    assert!(matches!(f.try_save(Some("file:///z")), SavePlan::Record { .. }));
}

#[test]
fn service_actions() {
    assert_eq!(handle_command(Command::Copy(4)), ServiceAction::Restore(4));
    assert_eq!(handle_command(Command::Clear), ServiceAction::ClearHistory);
    assert_eq!(handle_command(Command::TogglePin(2)), ServiceAction::TogglePin(2));
}

#[test]
fn background_and_server_actions() {
    assert_eq!(background_action(Command::Copy(1)), Some(ServiceAction::Restore(1)));
    assert_eq!(background_action(Command::Clear), None);
    assert_eq!(server_action(Command::List), Some(ServerAction::SendPinnedItems));
    assert_eq!(server_action(Command::Copy(8)), Some(ServerAction::CopyById(8)));
    assert_eq!(server_action(Command::Help), None);
}

#[test]
fn daemon_steps() {
    let mut ex = get_all();
    let snap = text_snapshot("step");
    // the text extractor records; a failed insert hands over to the next position
    let (at, plan) = ex.plan_save(0, &snap);
    assert_eq!(at, 2);
    assert_eq!(ex.conclude(at, plan.clone(), false), DaemonStep::Continue(3));
    assert_eq!(ex.plan_save(3, &snap), (3, SavePlan::Skip));
    assert_eq!(ex.conclude(3, SavePlan::Skip, true), DaemonStep::Done { saved: false });
    // a stored record ends the look, and every extractor forgets it
    assert_eq!(ex.conclude(at, plan, true), DaemonStep::Done { saved: true });
    assert!(matches!(ex.plan_save(0, &snap).1, SavePlan::Record { .. }));
    // an unreadable clipboard passes to the next extractor
    assert_eq!(ex.conclude(0, SavePlan::Unreadable, false), DaemonStep::Continue(1));
    assert_eq!(ex.conclude(5, SavePlan::Unreadable, false), DaemonStep::Done { saved: false });
    assert_eq!(ex.conclude(1, SavePlan::Unchanged, true), DaemonStep::Done { saved: true });
}
