use lsz::domain::bookmarks::BookmarkRecord;
use lsz::surfaces::tui::app::event::{
    action_for_event, bookmark_is_saved, change_status, failure_status, opened_status, AppEvent, ChangeKind, FailureKind,
};
use lsz::surfaces::tui::app::action::Action;
use lsz::infra::providers::SystemExternalOpenProvider;

#[test]
fn change_statuses() {
    assert_eq!(change_status(ChangeKind::NoteSaved, "/tmp/a", None), "已保存备注: /tmp/a");
    assert_eq!(change_status(ChangeKind::BookmarkSaved, "docs", Some("locked")), "保存书签失败: locked");
    assert_eq!(change_status(ChangeKind::BookmarkRemoved, "docs", None), "已移除书签 docs");
    assert_eq!(failure_status(FailureKind::JumpBookmark, "missing"), "跳转书签失败: missing");
    assert_eq!(
        opened_status(SystemExternalOpenProvider.name(), "/tmp/a.pdf"),
        "已使用系统默认打开器打开 /tmp/a.pdf"
    );
}

#[test]
fn toggling_checks_existing_bookmarks() {
    let b = vec![BookmarkRecord { name: "docs".to_string(), path: "/tmp".to_string(), note: None }];
    assert!(bookmark_is_saved(&b, "docs", "/tmp"));
    assert!(!bookmark_is_saved(&b, "docs", "/var"));
}

#[test]
fn events_become_actions() {
    assert!(matches!(action_for_event(AppEvent::Status("x".to_string())), Action::Status(s) if s == "x"));
    assert!(matches!(action_for_event(AppEvent::DirFailed("e".to_string())), Action::DirFailed(s) if s == "e"));
}
