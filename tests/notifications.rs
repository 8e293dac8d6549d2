use live_reload::bridge::HandOff;
use live_reload::change::{notification_for, ChangeEvent, ChangeKind};
use live_reload::document::{directory_listing, document_html};
use live_reload::notifier::{BridgeItem, Notifier, NotifierAction, NotifierEvent, NotifierPhase};

fn event(kind: ChangeKind, paths: &[&str]) -> ChangeEvent {
    ChangeEvent { kind, paths: paths.iter().map(|p| p.to_string()).collect() }
}

fn sent_text(action: NotifierAction) -> Option<String> {
    match action {
        NotifierAction::Send(t) => Some(t),
        _ => None,
    }
}

#[test]
fn data_edit_notifies_first_path() {
    let e = event(ChangeKind::ModifiedData, &["/docs/readme.md"]);
    assert_eq!(notification_for(&e), Some("File changed /docs/readme.md".to_string()));
}

#[test]
fn removal_sends_nothing() {
    let mut n = Notifier::new();
    let e = event(ChangeKind::Removed, &["/docs/old.md"]);
    let a = n.step(NotifierEvent::Item(BridgeItem::Change(e)));
    assert!(matches!(a, NotifierAction::Wait));
    assert_eq!(n.phase, NotifierPhase::Receiving);
}

#[test]
fn notifier_sends_scenario_text() {
    let mut n = Notifier::new();
    let e = event(ChangeKind::ModifiedData, &["/docs/readme.md"]);
    let a = n.step(NotifierEvent::Item(BridgeItem::Change(e)));
    assert_eq!(sent_text(a), Some("File changed /docs/readme.md".to_string()));
    assert_eq!(n.phase, NotifierPhase::Sending);
}

#[test]
fn other_kinds_and_empty_paths_send_nothing() {
    let cases = vec![
        event(ChangeKind::Created, &["/a.md"]),
        event(ChangeKind::ModifiedMetadata, &["/a.md"]),
        event(ChangeKind::Removed, &["/a.md"]),
        event(ChangeKind::Other, &["/a.md"]),
        event(ChangeKind::ModifiedData, &[]),
    ];
    let mut n = Notifier::new();
    for e in cases {
        assert_eq!(notification_for(&e), None);
        let a = n.step(NotifierEvent::Item(BridgeItem::Change(e)));
        assert!(matches!(a, NotifierAction::Wait));
    }
    let a = n.step(NotifierEvent::Item(BridgeItem::WatchFailure));
    assert!(matches!(a, NotifierAction::Wait));
    assert_eq!(n.phase, NotifierPhase::Receiving);
}

#[test]
fn one_frame_per_drained_edit() {
    let mut n = Notifier::new();
    let paths = ["/x.md", "/y/z.md", "/x.md"];
    for p in paths.iter() {
        let e = event(ChangeKind::ModifiedData, &[p, "/second.md"]);
        let a = n.step(NotifierEvent::Item(BridgeItem::Change(e)));
        let text = sent_text(a).unwrap();
        assert_eq!(text, format!("File changed {}", p));
        assert!(text.contains(p));
        assert!(matches!(n.step(NotifierEvent::Sent), NotifierAction::Wait));
        assert_eq!(n.phase, NotifierPhase::Receiving);
    }
}

#[test]
fn send_failure_finishes_notifier() {
    let mut n = Notifier::new();
    let e = event(ChangeKind::ModifiedData, &["/a.md"]);
    assert!(sent_text(n.step(NotifierEvent::Item(BridgeItem::Change(e)))).is_some());
    assert!(matches!(n.step(NotifierEvent::SendFailed), NotifierAction::Finish));
    assert_eq!(n.phase, NotifierPhase::Finished);
    let e = event(ChangeKind::ModifiedData, &["/b.md"]);
    assert!(matches!(n.step(NotifierEvent::Item(BridgeItem::Change(e))), NotifierAction::Finish));
}

#[test]
fn source_end_finishes_notifier() {
    let mut n = Notifier::new();
    assert!(matches!(n.step(NotifierEvent::SourceEnded), NotifierAction::Finish));
    assert_eq!(n.phase, NotifierPhase::Finished);
}

#[test]
fn send_outcome_without_pending_send_is_ignored() {
    let mut n = Notifier::new();
    assert!(matches!(n.step(NotifierEvent::SendFailed), NotifierAction::Wait));
    assert_eq!(n.phase, NotifierPhase::Receiving);
}

#[test]
fn burst_keeps_one_item() {
    let mut h: HandOff<BridgeItem> = HandOff::new();
    assert_eq!(h.len(), 0);
    for i in 0..5 {
        let p = format!("/f{}.md", i);
        let displaced = h.put(BridgeItem::Change(event(ChangeKind::ModifiedData, &[&p])));
        assert_eq!(displaced.is_some(), i > 0);
        assert_eq!(h.len(), 1);
    }
    match h.take() {
        Some(BridgeItem::Change(e)) => assert_eq!(e.paths, vec!["/f4.md".to_string()]),
        _ => panic!("the latest change should be buffered"),
    }
    assert_eq!(h.len(), 0);
    assert!(h.take().is_none());
}

#[test]
fn markdown_becomes_html() {
    assert_eq!(document_html("~Venus~Mars!"), "<p><del>Venus</del>Mars!</p>");
    assert_eq!(document_html("# Hi"), "<h1>Hi</h1>");
}

#[test]
fn same_markdown_same_html() {
    let text = "* one\n* two\n\n| a |\n| - |\n| b |\n";
    assert_eq!(document_html(text), document_html(text));
    assert_eq!(document_html(""), "");
}

#[test]
fn listing_puts_each_entry_on_a_line() {
    let entries = vec!["./a.md".to_string(), "./docs".to_string()];
    assert_eq!(directory_listing(&entries), "./a.md\n./docs\n");
    assert_eq!(directory_listing(&vec![]), "");
}
