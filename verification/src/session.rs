//! The session state machine. Two states drive it: idle (all keys accepted)
//! and awaiting a reply (only the quit key accepted). Submitting a non-empty
//! trimmed input appends one user turn and starts a request; the settled
//! outcome appends exactly one narrator turn — the reply on success, an
//! in-character failure turn otherwise — and pins the view to the bottom.

use vstd::prelude::*;
use crate::input::InputBuffer;
use crate::input::InputV;
use crate::input::spec_backspace;
use crate::input::spec_delete;
use crate::input::spec_empty_input;
use crate::input::spec_end;
use crate::input::spec_home;
use crate::input::spec_insert;
use crate::input::spec_left;
use crate::input::spec_right;
use crate::scroll::ViewState;
use crate::scroll::ViewStateV;
use crate::scroll::cap_usize;
use crate::scroll::est_total_lines;
use crate::scroll::estimate_total_lines;
use crate::scroll::spec_initial_view;
use crate::scroll::spec_scroll_down;
use crate::scroll::spec_scroll_up;
use crate::scroll::spec_update;
use crate::text::string_from_chars;
use crate::text::trim;
use crate::text::trim_spec;
use crate::transcript::Role;
use crate::transcript::Turn;
use crate::transcript::TurnV;
use crate::transcript::intro_turn;
use crate::transcript::intro_turn_spec;
use crate::wire::CompletionError;
use crate::wire::error_turn_content;
use crate::wire::error_turn_text;

verus! {

/// What the status line reports.
#[derive(Clone, Copy, PartialEq, Eq, Structural, Debug)]
pub enum Status {
    AwaitingInput,
    Pondering,
    Glitched,
}

pub open spec fn status_label_spec(s: Status) -> Seq<char> {
    match s {
        Status::AwaitingInput => "awaiting input"@,
        Status::Pondering => "the narrator ponders..."@,
        Status::Glitched => "reality glitched"@,
    }
}

pub fn status_label(s: Status) -> (r: &'static str)
    ensures
        r@ == status_label_spec(s),
{
    match s {
        Status::AwaitingInput => "awaiting input",
        Status::Pondering => "the narrator ponders...",
        Status::Glitched => "reality glitched",
    }
}

/// One keystroke, already decoded from the terminal.
#[derive(Clone, Copy, PartialEq, Eq, Structural, Debug)]
pub enum Key {
    CtrlC,
    Enter,
    Char(char),
    Backspace,
    Delete,
    Left,
    Right,
    Home,
    End,
    Up,
    Down,
    PageUp,
    PageDown,
    Other,
}

/// What the caller must do after a keystroke is handled.
#[derive(Clone, Copy, PartialEq, Eq, Structural, Debug)]
pub enum Action {
    /// Nothing beyond the regular redraw.
    Continue,
    /// Issue one completion request for the current transcript.
    StartRequest,
    /// Leave the loop and restore the terminal.
    Quit,
}

/// The whole mutable state of one session.
pub struct Session {
    pub transcript: Vec<Turn>,
    pub input: InputBuffer,
    pub view_state: ViewState,
    pub loading: bool,
    pub status: Status,
}

#[verifier::ext_equal]
pub ghost struct SessionV {
    pub transcript: Seq<TurnV>,
    pub input: InputV,
    pub view_state: ViewStateV,
    pub loading: bool,
    pub status: Status,
}

impl View for Session {
    type V = SessionV;

    open spec fn view(&self) -> SessionV {
        SessionV {
            transcript: self.transcript.deep_view(),
            input: self.input@,
            view_state: self.view_state@,
            loading: self.loading,
            status: self.status,
        }
    }
}

impl SessionV {
    /// The session invariants: the cursor inside its bounds, the scroll
    /// offset inside its bounds, and the introductory turn in place.
    pub open spec fn wf(self) -> bool {
        self.input.wf() && self.view_state.wf() && self.transcript.len() >= 1
    }
}

pub open spec fn spec_init() -> SessionV {
    SessionV {
        transcript: seq![intro_turn_spec()],
        input: spec_empty_input(),
        view_state: spec_initial_view(),
        loading: false,
        status: Status::AwaitingInput,
    }
}

/// Submitting: the trimmed input becomes one appended user turn, the buffer
/// empties, and the session starts awaiting a reply.
pub open spec fn spec_submit(s: SessionV) -> SessionV {
    SessionV {
        transcript: s.transcript.push(
            TurnV { role: Role::User, content: trim_spec(s.input.chars) },
        ),
        input: spec_empty_input(),
        loading: true,
        status: Status::Pondering,
        ..s
    }
}

/// The transition for one keystroke. The quit key works in every state;
/// while a request is outstanding every other key is ignored.
pub open spec fn spec_step(s: SessionV, key: Key) -> (SessionV, Action) {
    if key is CtrlC {
        (s, Action::Quit)
    } else if s.loading {
        (s, Action::Continue)
    } else {
        match key {
            Key::Enter => if trim_spec(s.input.chars).len() == 0 {
                (s, Action::Continue)
            } else {
                (spec_submit(s), Action::StartRequest)
            },
            Key::Char(c) => (SessionV { input: spec_insert(s.input, c), ..s }, Action::Continue),
            Key::Backspace => (SessionV { input: spec_backspace(s.input), ..s }, Action::Continue),
            Key::Delete => (SessionV { input: spec_delete(s.input), ..s }, Action::Continue),
            Key::Left => (SessionV { input: spec_left(s.input), ..s }, Action::Continue),
            Key::Right => (SessionV { input: spec_right(s.input), ..s }, Action::Continue),
            Key::Home => (SessionV { input: spec_home(s.input), ..s }, Action::Continue),
            Key::End => (SessionV { input: spec_end(s.input), ..s }, Action::Continue),
            Key::Up => (
                SessionV { view_state: spec_scroll_up(s.view_state, 3), ..s },
                Action::Continue,
            ),
            Key::Down => (
                SessionV { view_state: spec_scroll_down(s.view_state, 3), ..s },
                Action::Continue,
            ),
            Key::PageUp => (
                SessionV { view_state: spec_scroll_up(s.view_state, 10), ..s },
                Action::Continue,
            ),
            Key::PageDown => (
                SessionV { view_state: spec_scroll_down(s.view_state, 10), ..s },
                Action::Continue,
            ),
            _ => (s, Action::Continue),
        }
    }
}

/// The narrator turn a settled outcome contributes: the reply text on
/// success, the synthesized in-character failure turn otherwise.
pub open spec fn spec_reply_text(o: Result<String, CompletionError>) -> Seq<char> {
    match o {
        Result::Ok(t) => t@,
        Result::Err(e) => error_turn_text(e),
    }
}

/// Settlement: exactly one narrator turn appended, the loading flag dropped,
/// the view pinned to the bottom, and the status set by the outcome.
pub open spec fn spec_apply(s: SessionV, o: Result<String, CompletionError>) -> SessionV {
    SessionV {
        transcript: s.transcript.push(TurnV { role: Role::Narrator, content: spec_reply_text(o) }),
        view_state: ViewStateV { pinned: true, ..s.view_state },
        loading: false,
        status: if o is Ok {
            Status::AwaitingInput
        } else {
            Status::Glitched
        },
        ..s
    }
}

/// Recomputation before a redraw: the view bounds follow the estimated line
/// total at the current viewport height; nothing else moves.
pub open spec fn spec_refresh(s: SessionV, visible_height: int) -> SessionV {
    SessionV {
        view_state: spec_update(
            s.view_state,
            cap_usize(est_total_lines(s.transcript)),
            visible_height,
        ),
        ..s
    }
}

impl Session {
    /// A fresh session: the introductory narrator turn alone, an empty
    /// buffer, the view pinned to the bottom, idle.
    pub fn new() -> (r: Session)
        ensures
            r@ == spec_init(),
            r@.wf(),
    {
        let mut transcript: Vec<Turn> = Vec::new();
        transcript.push(intro_turn());
        let r = Session {
            transcript,
            input: InputBuffer::new(),
            view_state: ViewState::new(),
            loading: false,
            status: Status::AwaitingInput,
        };
        proof {
            assert(r.transcript.deep_view() =~= seq![intro_turn_spec()]);
            assert(r@ =~= spec_init());
        }
        r
    }

    /// Handles one keystroke as `spec_step` describes.
    pub fn handle_key(&mut self, key: Key) -> (a: Action)
        requires
            old(self)@.wf(),
        ensures
            final(self)@ == spec_step(old(self)@, key).0,
            a == spec_step(old(self)@, key).1,
            final(self)@.wf(),
    {
        if let Key::CtrlC = key {
            return Action::Quit;
        }
        if self.loading {
            return Action::Continue;
        }
        match key {
            Key::Enter => {
                let text = string_from_chars(&self.input.chars);
                let trimmed = trim(text.as_str());
                if trimmed.as_str().is_empty() {
                    Action::Continue
                } else {
                    let ghost before = self.transcript.deep_view();
                    self.transcript.push(Turn { role: Role::User, content: trimmed });
                    proof {
                        assert(self.transcript.deep_view() =~= before.push(
                            TurnV { role: Role::User, content: trim_spec(old(self)@.input.chars) },
                        ));
                    }
                    self.input.clear();
                    self.loading = true;
                    self.status = Status::Pondering;
                    proof {
                        assert(self@ =~= spec_submit(old(self)@));
                    }
                    Action::StartRequest
                }
            },
            Key::Char(c) => {
                self.input.insert_char(c);
                proof {
                    assert(self@ =~= spec_step(old(self)@, key).0);
                }
                Action::Continue
            },
            Key::Backspace => {
                self.input.backspace();
                proof {
                    assert(self@ =~= spec_step(old(self)@, key).0);
                }
                Action::Continue
            },
            Key::Delete => {
                self.input.delete_forward();
                proof {
                    assert(self@ =~= spec_step(old(self)@, key).0);
                }
                Action::Continue
            },
            Key::Left => {
                self.input.move_left();
                proof {
                    assert(self@ =~= spec_step(old(self)@, key).0);
                }
                Action::Continue
            },
            Key::Right => {
                self.input.move_right();
                proof {
                    assert(self@ =~= spec_step(old(self)@, key).0);
                }
                Action::Continue
            },
            Key::Home => {
                self.input.move_home();
                proof {
                    assert(self@ =~= spec_step(old(self)@, key).0);
                }
                Action::Continue
            },
            Key::End => {
                self.input.move_end();
                proof {
                    assert(self@ =~= spec_step(old(self)@, key).0);
                }
                Action::Continue
            },
            Key::Up => {
                self.view_state.scroll_up(3);
                proof {
                    assert(self@ =~= spec_step(old(self)@, key).0);
                }
                Action::Continue
            },
            Key::Down => {
                self.view_state.scroll_down(3);
                proof {
                    assert(self@ =~= spec_step(old(self)@, key).0);
                }
                Action::Continue
            },
            Key::PageUp => {
                self.view_state.scroll_up(10);
                proof {
                    assert(self@ =~= spec_step(old(self)@, key).0);
                }
                Action::Continue
            },
            Key::PageDown => {
                self.view_state.scroll_down(10);
                proof {
                    assert(self@ =~= spec_step(old(self)@, key).0);
                }
                Action::Continue
            },
            _ => Action::Continue,
        }
    }

    /// Applies one settled completion outcome as `spec_apply` describes.
    pub fn apply_outcome(&mut self, outcome: Result<String, CompletionError>)
        requires
            old(self)@.wf(),
        ensures
            final(self)@ == spec_apply(old(self)@, outcome),
            final(self)@.wf(),
    {
        let content = match &outcome {
            Result::Ok(t) => t.clone(),
            Result::Err(e) => error_turn_content(e),
        };
        let ghost before = self.transcript.deep_view();
        self.transcript.push(Turn { role: Role::Narrator, content });
        match &outcome {
            Result::Ok(_) => {
                self.status = Status::AwaitingInput;
            },
            Result::Err(_) => {
                self.status = Status::Glitched;
            },
        }
        self.loading = false;
        self.view_state.pinned = true;
        proof {
            assert(self.transcript.deep_view() =~= before.push(
                TurnV { role: Role::Narrator, content: spec_reply_text(outcome) },
            ));
            assert(self@ =~= spec_apply(old(self)@, outcome));
        }
    }

    /// Recomputes the view bounds for the current viewport height, as the
    /// loop does before every redraw.
    pub fn refresh_view(&mut self, visible_height: usize)
        requires
            old(self)@.wf(),
        ensures
            final(self)@ == spec_refresh(old(self)@, visible_height as int),
            final(self)@.wf(),
            final(self).view_state.pinned ==> final(self).view_state.scroll == final(self).view_state.max_scroll,
    {
        let total = estimate_total_lines(&self.transcript);
        self.view_state.update(total, visible_height);
        proof {
            assert(self@ =~= spec_refresh(old(self)@, visible_height as int));
        }
    }

    /// The status line's current text.
    pub fn current_status(&self) -> (r: &'static str)
        ensures
            r@ == status_label_spec(self.status),
    {
        status_label(self.status)
    }
}

/// Every keystroke preserves the session invariants: the cursor stays inside
/// `[0, length]`, the scroll offset inside `[0, max_scroll]`, and the
/// transcript never loses its first turn.
pub proof fn lemma_step_preserves_wf(s: SessionV, key: Key)
    requires
        s.wf(),
    ensures
        spec_step(s, key).0.wf(),
{
}

/// Submitting non-empty trimmed input appends exactly one user turn at once,
/// and the settled outcome appends exactly one narrator turn: a completed
/// exchange grows the transcript by exactly two turns, whatever the outcome.
pub proof fn lemma_completed_exchange(s: SessionV, o: Result<String, CompletionError>)
    requires
        !s.loading,
        trim_spec(s.input.chars).len() > 0,
    ensures
        spec_step(s, Key::Enter).1 is StartRequest,
        spec_step(s, Key::Enter).0.transcript == s.transcript.push(
            TurnV { role: Role::User, content: trim_spec(s.input.chars) },
        ),
        spec_apply(spec_step(s, Key::Enter).0, o).transcript == s.transcript.push(
            TurnV { role: Role::User, content: trim_spec(s.input.chars) },
        ).push(TurnV { role: Role::Narrator, content: spec_reply_text(o) }),
        spec_apply(spec_step(s, Key::Enter).0, o).transcript.len() == s.transcript.len() + 2,
{
}

/// Submitting empty-after-trim input is a no-op: the whole session state,
/// transcript and input buffer included, is unchanged.
pub proof fn lemma_empty_submit_is_noop(s: SessionV)
    requires
        !s.loading,
        trim_spec(s.input.chars).len() == 0,
    ensures
        spec_step(s, Key::Enter).0 == s,
        spec_step(s, Key::Enter).1 is Continue,
{
}

/// The quit key ends the loop from any state, idle or awaiting a reply,
/// leaving the state untouched for teardown.
pub proof fn lemma_quit_any_state(s: SessionV)
    ensures
        spec_step(s, Key::CtrlC).0 == s,
        spec_step(s, Key::CtrlC).1 is Quit,
{
}

} // verus!
