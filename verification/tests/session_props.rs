use narrator_console::input::InputBuffer;
use narrator_console::scroll::ViewState;
use narrator_console::session::Action;
use narrator_console::session::Key;
use narrator_console::session::Session;
use narrator_console::transcript::Role;
use narrator_console::wire::CompletionError;

fn type_text(s: &mut Session, text: &str) {
    for c in text.chars() {
        assert_eq!(s.handle_key(Key::Char(c)), Action::Continue);
    }
}

#[test]
fn new_session_opens_with_intro() {
    let s = Session::new();
    assert_eq!(s.transcript.len(), 1);
    assert_eq!(s.transcript[0].role, Role::Narrator);
    assert!(s.transcript[0].content.starts_with("[ The Narrator clears their throat"));
    assert!(!s.loading);
    assert_eq!(s.current_status(), "awaiting input");
}

#[test]
fn successful_exchange_adds_two_turns() {
    let mut s = Session::new();
    type_text(&mut s, "hello");
    let before = s.transcript.len();
    assert_eq!(s.handle_key(Key::Enter), Action::StartRequest);
    assert_eq!(s.transcript.len(), before + 1);
    assert_eq!(s.transcript[before].role, Role::User);
    assert_eq!(s.transcript[before].content, "hello");
    assert!(s.loading);
    assert!(s.input.chars.is_empty());
    assert_eq!(s.input.cursor, 0);
    assert_eq!(s.current_status(), "the narrator ponders...");
    s.apply_outcome(Ok("hi there".to_string()));
    assert_eq!(s.transcript.len(), before + 2);
    assert_eq!(s.transcript[before + 1].role, Role::Narrator);
    assert_eq!(s.transcript[before + 1].content, "hi there");
    assert!(!s.loading);
    assert!(s.view_state.pinned);
    assert_eq!(s.current_status(), "awaiting input");
}

#[test]
fn failed_exchange_synthesizes_narrator_turn() {
    let mut s = Session::new();
    type_text(&mut s, "hello");
    assert_eq!(s.handle_key(Key::Enter), Action::StartRequest);
    s.apply_outcome(Err(CompletionError::ApiError { status: 500, body: "boom".to_string() }));
    let last = s.transcript.last().unwrap();
    assert_eq!(last.role, Role::Narrator);
    assert!(last.content.contains("boom"));
    assert!(last.content.contains("API error"));
    assert_eq!(s.current_status(), "reality glitched");
    assert!(!s.loading);
    // still interactive afterwards
    assert_eq!(s.handle_key(Key::Char('x')), Action::Continue);
    assert_eq!(s.input.chars, vec!['x']);
}

#[test]
fn empty_submit_is_a_no_op() {
    let mut s = Session::new();
    type_text(&mut s, "   ");
    let turns_before = s.transcript.len();
    let chars_before = s.input.chars.clone();
    assert_eq!(s.handle_key(Key::Enter), Action::Continue);
    assert_eq!(s.transcript.len(), turns_before);
    assert_eq!(s.input.chars, chars_before);
    assert!(!s.loading);
}

#[test]
fn submitted_text_is_trimmed() {
    let mut s = Session::new();
    type_text(&mut s, "  hello  ");
    assert_eq!(s.handle_key(Key::Enter), Action::StartRequest);
    assert_eq!(s.transcript.last().unwrap().content, "hello");
}

#[test]
fn quit_works_in_both_states() {
    let mut idle = Session::new();
    assert_eq!(idle.handle_key(Key::CtrlC), Action::Quit);

    let mut loading = Session::new();
    type_text(&mut loading, "hello");
    assert_eq!(loading.handle_key(Key::Enter), Action::StartRequest);
    assert!(loading.loading);
    assert_eq!(loading.handle_key(Key::CtrlC), Action::Quit);
}

#[test]
fn only_quit_works_while_loading() {
    let mut s = Session::new();
    type_text(&mut s, "hello");
    assert_eq!(s.handle_key(Key::Enter), Action::StartRequest);
    let turns = s.transcript.len();
    assert_eq!(s.handle_key(Key::Char('x')), Action::Continue);
    assert_eq!(s.handle_key(Key::Enter), Action::Continue);
    assert!(s.input.chars.is_empty());
    assert_eq!(s.transcript.len(), turns);
    assert!(s.loading);
}

#[test]
fn cursor_stays_in_bounds_through_editing() {
    let mut b = InputBuffer::new();
    b.insert_char('a');
    b.insert_char('b');
    b.insert_char('c');
    assert_eq!(b.chars, vec!['a', 'b', 'c']);
    assert_eq!(b.cursor, 3);
    b.move_left();
    b.move_left();
    b.insert_char('x');
    assert_eq!(b.chars, vec!['a', 'x', 'b', 'c']);
    assert_eq!(b.cursor, 2);
    b.backspace();
    assert_eq!(b.chars, vec!['a', 'b', 'c']);
    assert_eq!(b.cursor, 1);
    b.delete_forward();
    assert_eq!(b.chars, vec!['a', 'c']);
    b.move_home();
    assert_eq!(b.cursor, 0);
    b.backspace();
    assert_eq!(b.chars, vec!['a', 'c']);
    b.move_end();
    assert_eq!(b.cursor, 2);
    b.delete_forward();
    assert_eq!(b.chars, vec!['a', 'c']);
    b.move_right();
    assert_eq!(b.cursor, 2);
    assert!(b.cursor <= b.chars.len());
}

#[test]
fn cursor_moves_during_session_editing() {
    let mut s = Session::new();
    type_text(&mut s, "ab");
    s.handle_key(Key::Home);
    assert_eq!(s.input.cursor, 0);
    s.handle_key(Key::Right);
    assert_eq!(s.input.cursor, 1);
    s.handle_key(Key::End);
    assert_eq!(s.input.cursor, 2);
    s.handle_key(Key::Right);
    assert_eq!(s.input.cursor, 2);
    s.handle_key(Key::Backspace);
    assert_eq!(s.input.chars, vec!['a']);
}

#[test]
fn scroll_bounds_and_pinning() {
    let mut v = ViewState::new();
    assert!(v.pinned);
    v.update(100, 20);
    assert_eq!(v.max_scroll, 80);
    assert_eq!(v.scroll, 80, "pinned mode lands on the bottom");
    v.scroll_up(3);
    assert!(!v.pinned);
    assert_eq!(v.scroll, 77);
    v.scroll_up(100);
    assert_eq!(v.scroll, 0);
    v.scroll_down(10);
    assert_eq!(v.scroll, 10);
    assert!(!v.pinned);
    v.scroll_down(100);
    assert_eq!(v.scroll, 80);
    assert!(v.pinned, "landing on the bottom re-pins");
    assert!(v.scroll <= v.max_scroll);
}

#[test]
fn update_clamps_and_is_idempotent() {
    let mut v = ViewState::new();
    v.update(100, 20);
    v.scroll_up(5);
    v.update(50, 20);
    assert_eq!(v.max_scroll, 30);
    assert_eq!(v.scroll, 30, "old offset 75 is clamped into the new bounds");
    let once = (v.scroll, v.max_scroll, v.pinned);
    v.update(50, 20);
    let twice = (v.scroll, v.max_scroll, v.pinned);
    assert_eq!(once, twice);
    v.update(10, 20);
    assert_eq!(v.max_scroll, 0);
    assert_eq!(v.scroll, 0);
}

#[test]
fn refresh_view_uses_line_estimate() {
    let mut s = Session::new();
    s.transcript.clear();
    s.transcript.push(narrator_console::transcript::Turn {
        role: Role::User,
        content: "a\nb".to_string(),
    });
    // one turn: 8 lines of overhead plus 2 content lines
    s.refresh_view(4);
    assert_eq!(s.view_state.max_scroll, 6);
    assert_eq!(s.view_state.scroll, 6);
}

#[test]
fn connection_failure_also_recovers() {
    let mut s = Session::new();
    type_text(&mut s, "hello");
    assert_eq!(s.handle_key(Key::Enter), Action::StartRequest);
    s.apply_outcome(Err(CompletionError::ConnectionFailed("refused".to_string())));
    let last = s.transcript.last().unwrap();
    assert!(last.content.contains("Connection failed: refused"));
    assert!(!s.loading);
    assert!(s.view_state.pinned);
}
