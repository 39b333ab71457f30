use password_prompt::cursor::{Event, Key, StringCursor};
use password_prompt::password::Password;
use password_prompt::theme::{format_footer, format_header, State, PASSWORD_MASK};
use password_prompt::validate::{AcceptAll, MinLength, Validate};

fn press(p: &mut Password<impl Validate>, key: Key) -> State {
    p.step(&Event::Key(key))
}

fn type_text(p: &mut Password<impl Validate>, text: &str) {
    for c in text.chars() {
        assert_eq!(press(p, Key::Char(c)), State::Active);
    }
}

#[test]
fn scenario_masked_render_then_submit() {
    let mut p = Password::new("Password:").mask('*');
    type_text(&mut p, "ab");
    let shown = p.render(&State::Active);
    assert!(shown.contains("**"));
    assert!(!shown.contains("ab"));
    assert_eq!(press(&mut p, Key::Enter), State::Submit("ab".to_string()));
}

#[test]
fn scenario_short_password_then_longer() {
    let mut p = Password::new("Password:").validate(MinLength::new(8, "at least 8 characters"));
    type_text(&mut p, "short");
    assert_eq!(
        press(&mut p, Key::Enter),
        State::Error("at least 8 characters".to_string())
    );
    type_text(&mut p, "er12");
    assert_eq!(
        press(&mut p, Key::Enter),
        State::Submit("shorter12".to_string())
    );
}

#[test]
fn render_exact_active() {
    let mut p = Password::new("Password:").mask('*');
    type_text(&mut p, "ab");
    assert_eq!(
        p.render(&State::Active),
        "\u{25c6}  Password:\n\u{2502}  **\n\u{2514}\n"
    );
}

#[test]
fn render_exact_error_and_submit() {
    let mut p = Password::new("Key").mask('#');
    type_text(&mut p, "xyz");
    assert_eq!(
        p.render(&State::Error("too short".to_string())),
        "\u{25b2}  Key\n\u{2502}  ###\n\u{2514}  too short\n"
    );
    assert_eq!(
        p.render(&State::Submit("xyz".to_string())),
        "\u{25c7}  Key\n\u{2502}  ###\n"
    );
}

#[test]
fn render_body_has_one_mask_per_character() {
    let mut p = Password::new("Q").mask('*');
    type_text(&mut p, "s3cr3t!");
    let shown = p.render(&State::Active);
    let header = format_header(&State::Active, "Q");
    let footer = format_footer(&State::Active);
    let body = &shown[header.len()..shown.len() - footer.len()];
    assert_eq!(body, "*******");
    for c in "s3cr3t!".chars() {
        assert!(!body.contains(c));
    }
    assert_eq!(p.value(), "s3cr3t!");
}

#[test]
fn render_leaves_buffer_and_cursor() {
    let mut p = Password::new("Q");
    type_text(&mut p, "abc");
    press(&mut p, Key::ArrowLeft);
    let first = p.render(&State::Active);
    let second = p.render(&State::Active);
    assert_eq!(first, second);
    assert_eq!(p.value(), "abc");
    assert_eq!(p.input().cursor(), 2);
}

#[test]
fn default_mask_is_theme_mask() {
    let mut p = Password::new("Q");
    type_text(&mut p, "ab");
    let expected: String = [PASSWORD_MASK, PASSWORD_MASK].iter().collect();
    assert!(p.render(&State::Active).contains(&expected));
    assert_eq!(PASSWORD_MASK, '\u{25aa}');
}

#[test]
fn enter_without_rule_submits_text() {
    let mut p = Password::new("Q");
    assert_eq!(press(&mut p, Key::Enter), State::Submit(String::new()));
    type_text(&mut p, "hunter2");
    assert_eq!(press(&mut p, Key::Enter), State::Submit("hunter2".to_string()));
}

#[test]
fn enter_with_rule_is_repeatable() {
    let mut p = Password::new("Q").validate(MinLength::new(4, "short"));
    type_text(&mut p, "abc");
    assert_eq!(press(&mut p, Key::Enter), State::Error("short".to_string()));
    assert_eq!(press(&mut p, Key::Enter), State::Error("short".to_string()));
    assert_eq!(p.value(), "abc");
    type_text(&mut p, "d");
    assert_eq!(press(&mut p, Key::Enter), State::Submit("abcd".to_string()));
    assert_eq!(press(&mut p, Key::Enter), State::Submit("abcd".to_string()));
}

#[test]
fn later_rule_replaces_earlier() {
    let mut p = Password::new("Q")
        .validate(MinLength::new(10, "ten"))
        .validate(MinLength::new(2, "two"));
    type_text(&mut p, "a");
    assert_eq!(press(&mut p, Key::Enter), State::Error("two".to_string()));
    type_text(&mut p, "b");
    assert_eq!(press(&mut p, Key::Enter), State::Submit("ab".to_string()));
}

#[test]
fn other_keys_stay_active() {
    let mut p = Password::new("Q");
    type_text(&mut p, "ab");
    for key in [Key::Escape, Key::Tab, Key::Unknown] {
        assert_eq!(p.on_event(&Event::Key(key)), State::Active);
        assert_eq!(p.value(), "ab");
    }
    assert_eq!(p.on_event(&Event::Key(Key::Char('z'))), State::Active);
    assert_eq!(p.value(), "ab");
}

#[test]
fn mask_change_shows_in_render() {
    let mut p = Password::new("Q").mask('*');
    type_text(&mut p, "pw");
    assert!(p.render(&State::Active).contains("**"));
    let mut q = Password::new("Q").mask('*').mask('?');
    type_text(&mut q, "pw");
    let shown = q.render(&State::Active);
    assert!(shown.contains("??"));
    assert!(!shown.contains('*'));
    assert_eq!(q.value(), "pw");
}

#[test]
fn editing_keys_move_and_delete() {
    let mut p = Password::new("Q");
    type_text(&mut p, "abcd");
    press(&mut p, Key::Backspace);
    assert_eq!(p.value(), "abc");
    press(&mut p, Key::Home);
    press(&mut p, Key::Del);
    assert_eq!(p.value(), "bc");
    assert_eq!(p.input().cursor(), 0);
    press(&mut p, Key::Backspace);
    assert_eq!(p.value(), "bc");
    press(&mut p, Key::ArrowRight);
    press(&mut p, Key::Char('x'));
    assert_eq!(p.value(), "bxc");
    press(&mut p, Key::End);
    press(&mut p, Key::Del);
    assert_eq!(p.value(), "bxc");
    assert_eq!(p.input().cursor(), 3);
    press(&mut p, Key::ArrowLeft);
    press(&mut p, Key::ArrowLeft);
    press(&mut p, Key::ArrowLeft);
    press(&mut p, Key::ArrowLeft);
    assert_eq!(p.input().cursor(), 0);
}

#[test]
fn cursor_masked_copy() {
    let mut c = StringCursor::new();
    c.apply_key(Key::Char('h'));
    c.apply_key(Key::Char('i'));
    c.apply_key(Key::ArrowLeft);
    let m = c.masked('*');
    assert_eq!(m.to_string(), "**");
    assert_eq!(m.cursor(), 1);
    assert_eq!(c.to_string(), "hi");
    assert_eq!(c.len(), 2);
}

#[test]
fn min_length_counts_characters() {
    let rule = MinLength::new(3, "need three");
    assert_eq!(rule.validate(&"\u{e9}\u{e9}\u{e9}".to_string()), Ok(()));
    assert_eq!(rule.validate(&"ab".to_string()), Err("need three".to_string()));
    assert_eq!(AcceptAll.validate(&String::new()), Ok(()));
}
