use p2p_session::demo_windows::{
    about_window_name, demo_window_names, set_open, test_window_names, DemoGroup, DemoGroups,
    DemoWindows, NameSet,
};
use p2p_session::widgets::{
    prepare_code_sample, remove_leading_indentation, CodeExample, TextState,
};

#[test]
fn set_open_adds_and_removes() {
    let mut open = NameSet::new();
    let name = "Window A".to_owned();
    set_open(&mut open, &name, true);
    assert!(open.contains(&name));
    assert_eq!(open.len(), 1);

    // Opening an already open window does not duplicate it.
    set_open(&mut open, &name, true);
    assert_eq!(open.len(), 1);

    set_open(&mut open, &name, false);
    assert!(!open.contains(&name));
    assert_eq!(open.len(), 0);

    // Closing a window that is not open is harmless.
    set_open(&mut open, &name, false);
    assert_eq!(open.len(), 0);
}

#[test]
fn demo_group_keeps_names_in_order() {
    let g = DemoGroup::new(vec!["One".to_owned(), "Two".to_owned()]);
    let h = DemoGroup::new(vec!["Three".to_owned()]);
    let joined = g.join(h);
    assert_eq!(
        joined.demos,
        vec!["One".to_owned(), "Two".to_owned(), "Three".to_owned()]
    );
}

#[test]
fn default_groups_register_every_window() {
    let groups = DemoGroups::default();
    assert_eq!(groups.about, about_window_name());
    assert_eq!(groups.demos.demos.len(), 30);
    assert_eq!(groups.tests.demos.len(), 11);
    assert_eq!(groups.demos.demos[0], "Bézier Curve");
    assert_eq!(groups.demos.demos[29], "Window Options");
    assert_eq!(groups.tests.demos[0], "Clipboard Test");
    assert_eq!(groups.tests.demos[10], "Window Resize Test");
    assert_eq!(groups.demos.demos, demo_window_names());
    assert_eq!(groups.tests.demos, test_window_names());
}

#[test]
fn default_shell_opens_three_windows() {
    let w = DemoWindows::default();
    assert!(w.about_is_open());
    assert_eq!(w.open.len(), 3);
    assert!(w.open.contains(&"Code Example".to_owned()));
    assert!(w.open.contains(&"Widget Gallery".to_owned()));
    assert!(!w.open.contains(&"Painting".to_owned()));
    assert_eq!(w.users.len(), 3);
    assert!(w.logged_in_user.is_none());
    assert!(!w.user_management_open);
}

#[test]
fn stock_accounts_carry_their_window_sets() {
    let w = DemoWindows::default();

    // The administrator may open every window, the About one included.
    let admin = &w.users[0];
    assert!(admin.is_admin);
    assert_eq!(admin.accessible_windows.len(), 31);
    assert!(admin.accessible_windows.contains(&about_window_name()));
    for name in demo_window_names() {
        assert!(admin.accessible_windows.contains(&name));
    }

    // The two plain accounts may open two windows each.
    let user1 = &w.users[1];
    assert_eq!(user1.accessible_windows.len(), 2);
    assert!(user1.accessible_windows.contains(&"Widget Gallery".to_owned()));
    assert!(user1.accessible_windows.contains(&about_window_name()));

    let user2 = &w.users[2];
    assert_eq!(user2.accessible_windows.len(), 2);
    assert!(user2.accessible_windows.contains(&"Window Options".to_owned()));
    assert!(user2.accessible_windows.contains(&"Code Example".to_owned()));
    assert!(!user2.accessible_windows.contains(&"Widget Gallery".to_owned()));
}

#[test]
fn login_accepts_matching_credentials() {
    let mut w = DemoWindows::default();
    w.username_input = "admin".to_owned();
    w.password_input = "admin".to_owned();
    w.login();
    assert_eq!(w.logged_in_user.as_deref(), Some("admin"));
}

#[test]
fn login_rejects_wrong_password() {
    let mut w = DemoWindows::default();
    w.username_input = "admin".to_owned();
    w.password_input = "wrong".to_owned();
    w.login();
    assert!(w.logged_in_user.is_none());
}

#[test]
fn logout_clears_the_session_and_inputs() {
    let mut w = DemoWindows::default();
    w.username_input = "user1".to_owned();
    w.password_input = "password".to_owned();
    w.login();
    assert_eq!(w.logged_in_user.as_deref(), Some("user1"));
    w.logout();
    assert!(w.logged_in_user.is_none());
    assert!(w.username_input.is_empty());
    assert!(w.password_input.is_empty());
}

#[test]
fn users_can_be_created_and_deleted() {
    let mut w = DemoWindows::default();
    w.create_user("carol".to_owned(), "secret".to_owned());
    assert_eq!(w.users.len(), 4);
    assert_eq!(w.users[3].username, "carol");
    assert!(!w.users[3].is_admin);
    w.delete_user(3);
    assert_eq!(w.users.len(), 3);
}

#[test]
fn window_access_can_be_granted_and_withdrawn() {
    let mut w = DemoWindows::default();
    let window = "Painting".to_owned();
    assert!(!w.users[1].accessible_windows.contains(&window));
    w.set_user_access(1, &window, true);
    assert!(w.users[1].accessible_windows.contains(&window));
    w.set_user_access(1, &window, false);
    assert!(!w.users[1].accessible_windows.contains(&window));
}

#[test]
fn text_state_default() {
    assert_eq!(TextState::default().text, "Edit this text");
}

#[test]
fn code_example_default() {
    let c = CodeExample::default();
    assert_eq!(c.language, "rs");
    assert_eq!(
        c.code,
        "// A very simple example\n\nfn main() {\n\tprintln!(\"Hello world!\");\n}\n"
    );
}

fn strip(s: &str) -> String {
    let out = remove_leading_indentation(&s.as_bytes().to_vec());
    String::from_utf8(out).unwrap()
}

#[test]
fn indentation_of_the_first_line_is_removed_everywhere() {
    assert_eq!(strip("    a\n      b\n  c\n"), "a\n  b\nc\n");
}

#[test]
fn unindented_text_is_unchanged() {
    assert_eq!(strip("a\nb\n"), "a\nb\n");
    assert_eq!(strip(""), "");
}

#[test]
fn a_line_with_less_indentation_loses_only_its_own() {
    assert_eq!(strip("        deep\nshallow\n"), "deep\nshallow\n");
}

#[test]
fn tabs_count_as_indentation() {
    assert_eq!(strip("\t\tx\n\t\t\ty\n"), "x\n\ty\n");
}

#[test]
fn last_line_without_newline_is_stripped_too() {
    assert_eq!(strip("  a\n  b"), "a\nb");
}

#[test]
fn blank_lines_are_kept() {
    assert_eq!(strip("  a\n\n  b\n"), "a\n\nb\n");
}

fn prepare(s: &str) -> String {
    let out = prepare_code_sample(&s.as_bytes().to_vec());
    String::from_utf8(out).unwrap()
}

#[test]
fn code_samples_lose_leading_line_breaks_before_the_indent() {
    assert_eq!(prepare("\n\n    a\n      b\n"), "a\n  b\n");
    // Without leading line breaks the preparation is the plain strip.
    assert_eq!(prepare("  a\n  b\n"), "a\nb\n");
    assert_eq!(prepare("\n\n"), "");
}
