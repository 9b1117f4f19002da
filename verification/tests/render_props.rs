use narrator_console::render::classify;
use narrator_console::render::clamp_render_scroll;
use narrator_console::render::render_transcript;
use narrator_console::render::separator_text;
use narrator_console::render::LineClass;
use narrator_console::transcript::Role;
use narrator_console::transcript::Turn;

fn turn(role: Role, content: &str) -> Turn {
    Turn { role, content: content.to_string() }
}

#[test]
fn classification_of_wrapped_lines() {
    assert_eq!(classify("[ The void hums ]"), LineClass::Stage);
    assert_eq!(classify("*softly*"), LineClass::Emphasis);
    assert_eq!(classify("plain text"), LineClass::Plain);
}

#[test]
fn classification_edges() {
    assert_eq!(classify(""), LineClass::Plain);
    assert_eq!(classify("*"), LineClass::Emphasis);
    assert_eq!(classify("["), LineClass::Plain);
    assert_eq!(classify("[half bracket"), LineClass::Plain);
    assert_eq!(classify("*mixed]"), LineClass::Plain);
}

#[test]
fn one_turn_renders_header_content_separator() {
    let lines = render_transcript(&vec![turn(Role::User, "hello")], 80);
    let shape: Vec<(LineClass, String)> = lines.iter().map(|l| (l.class, l.text.clone())).collect();
    assert_eq!(
        shape,
        vec![
            (LineClass::Header(Role::User), "\u{2726} You".to_string()),
            (LineClass::Blank, String::new()),
            (LineClass::Plain, "hello".to_string()),
            (LineClass::Blank, String::new()),
            (LineClass::Blank, String::new()),
            (LineClass::Separator, "\u{2500}".repeat(40)),
            (LineClass::Blank, String::new()),
        ]
    );
}

#[test]
fn stage_and_emphasis_lines_are_styled() {
    let lines = render_transcript(
        &vec![turn(Role::Narrator, "[ The void hums ]\n\n*softly*\n\nwords")],
        80,
    );
    let classes: Vec<LineClass> = lines.iter().map(|l| l.class).collect();
    assert_eq!(
        classes,
        vec![
            LineClass::Header(Role::Narrator),
            LineClass::Blank,
            LineClass::Stage,
            LineClass::Blank,
            LineClass::Emphasis,
            LineClass::Blank,
            LineClass::Plain,
            LineClass::Blank,
            LineClass::Blank,
            LineClass::Separator,
            LineClass::Blank,
        ]
    );
}

#[test]
fn long_lines_wrap_at_width() {
    let lines = render_transcript(&vec![turn(Role::User, "aaaa bbbb cccc dddd eeee")], 10);
    let content: Vec<&str> = lines
        .iter()
        .filter(|l| l.class == LineClass::Plain)
        .map(|l| l.text.as_str())
        .collect();
    assert!(content.len() > 1, "a 24-character line must wrap at width 10");
    for piece in &content {
        assert!(piece.chars().count() <= 10, "piece {:?} is wider than 10", piece);
    }
    let rejoined = content.join(" ");
    assert_eq!(rejoined, "aaaa bbbb cccc dddd eeee");
}

#[test]
fn bracket_pair_split_by_wrap_is_plain() {
    let lines = render_transcript(&vec![turn(Role::User, "[ a very long stage direction ]")], 12);
    assert!(lines.iter().all(|l| l.class != LineClass::Stage));
}

#[test]
fn empty_content_still_gets_frame() {
    let lines = render_transcript(&vec![turn(Role::System, "")], 30);
    let classes: Vec<LineClass> = lines.iter().map(|l| l.class).collect();
    assert_eq!(
        classes,
        vec![
            LineClass::Header(Role::System),
            LineClass::Blank,
            LineClass::Blank,
            LineClass::Blank,
            LineClass::Separator,
            LineClass::Blank,
        ]
    );
}

#[test]
fn separator_caps_at_forty() {
    assert_eq!(separator_text(5), "\u{2500}".repeat(5));
    assert_eq!(separator_text(80), "\u{2500}".repeat(40));
    assert_eq!(separator_text(0), "");
}

#[test]
fn render_scroll_clamps() {
    assert_eq!(clamp_render_scroll(100, 20, 50), (80, 50));
    assert_eq!(clamp_render_scroll(100, 20, 90), (80, 80));
    assert_eq!(clamp_render_scroll(10, 20, 3), (0, 0));
}
