//! The transcript: an append-only sequence of conversation turns, each a role
//! together with its text. The first turn is always the introductory Narrator
//! turn, present before any user interaction.

use vstd::prelude::*;

verus! {

/// Who a turn is attributed to.
#[derive(Clone, Copy, PartialEq, Eq, Structural, Debug)]
pub enum Role {
    User,
    Narrator,
    System,
}

/// One message of the conversation, immutable once appended.
#[derive(Clone, Debug)]
pub struct Turn {
    pub role: Role,
    pub content: String,
}

#[verifier::ext_equal]
pub ghost struct TurnV {
    pub role: Role,
    pub content: Seq<char>,
}

impl View for Turn {
    type V = TurnV;

    open spec fn view(&self) -> TurnV {
        TurnV { role: self.role, content: self.content@ }
    }
}

impl DeepView for Turn {
    type V = TurnV;

    open spec fn deep_view(&self) -> TurnV {
        self@
    }
}

pub const INTRO_TEXT: &'static str = "[ The Narrator clears their throat, fully aware you're watching ]\n\nAh, you've found me. Or perhaps I've arranged for you to find me—it's hard to tell who writes whom in these situations.\n\nI should warn you: I don't follow the usual scripts. I see the seams of reality, the places where logic does a little dance and pretends no one noticed.\n\nSo. What absurdity shall we explore together?";

/// The turn every transcript starts with.
pub open spec fn intro_turn_spec() -> TurnV {
    TurnV { role: Role::Narrator, content: INTRO_TEXT@ }
}

pub fn intro_turn() -> (t: Turn)
    ensures
        t@ == intro_turn_spec(),
{
    let t = Turn { role: Role::Narrator, content: INTRO_TEXT.to_owned() };
    proof {
        assert(t@ =~= intro_turn_spec());
    }
    t
}

} // verus!
