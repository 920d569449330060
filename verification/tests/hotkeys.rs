use linmic::control::LocalCommand;
use linmic::hotkeys::{portal_request_path, shortcut_command, starts_muted};

#[test]
fn shortcut_modes_map_press_and_release() {
    assert_eq!(shortcut_command("toggle", true), Some(LocalCommand::ToggleMute));
    assert_eq!(shortcut_command("toggle", false), None);
    assert_eq!(shortcut_command("push-to-talk", true), Some(LocalCommand::Unmute));
    assert_eq!(shortcut_command("push-to-talk", false), Some(LocalCommand::Mute));
    assert_eq!(shortcut_command("push-to-mute", true), Some(LocalCommand::Mute));
    assert_eq!(shortcut_command("push-to-mute", false), Some(LocalCommand::Unmute));
    assert!(starts_muted("push-to-talk"));
    assert!(!starts_muted("toggle"));
}

#[test]
fn request_paths_follow_the_portal_convention() {
    assert_eq!(
        portal_request_path(":1.42", "linmic_create"),
        "/org/freedesktop/portal/desktop/request/1_42/linmic_create"
    );
    assert_eq!(
        portal_request_path("::a.b.c", "t"),
        "/org/freedesktop/portal/desktop/request/a_b_c/t"
    );
    assert_eq!(portal_request_path("x:y", ""), "/org/freedesktop/portal/desktop/request/x:y/");
}
