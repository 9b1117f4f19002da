//! The input buffer: editable text with a cursor that always stays inside
//! the bounds `0 <= cursor <= length`.

use vstd::prelude::*;

verus! {

/// The text being composed and the cursor position, counted in characters.
pub struct InputBuffer {
    pub chars: Vec<char>,
    pub cursor: usize,
}

#[verifier::ext_equal]
pub ghost struct InputV {
    pub chars: Seq<char>,
    pub cursor: int,
}

impl View for InputBuffer {
    type V = InputV;

    open spec fn view(&self) -> InputV {
        InputV { chars: self.chars@, cursor: self.cursor as int }
    }
}

impl InputV {
    /// The cursor invariant: it never leaves `[0, length]`.
    pub open spec fn wf(self) -> bool {
        0 <= self.cursor <= self.chars.len()
    }
}

pub open spec fn spec_empty_input() -> InputV {
    InputV { chars: Seq::empty(), cursor: 0 }
}

pub open spec fn spec_insert(v: InputV, c: char) -> InputV {
    InputV { chars: v.chars.insert(v.cursor, c), cursor: v.cursor + 1 }
}

pub open spec fn spec_backspace(v: InputV) -> InputV {
    if v.cursor > 0 {
        InputV { chars: v.chars.remove(v.cursor - 1), cursor: v.cursor - 1 }
    } else {
        v
    }
}

pub open spec fn spec_delete(v: InputV) -> InputV {
    if v.cursor < v.chars.len() {
        InputV { chars: v.chars.remove(v.cursor), cursor: v.cursor }
    } else {
        v
    }
}

pub open spec fn spec_left(v: InputV) -> InputV {
    InputV { chars: v.chars, cursor: if v.cursor > 0 { v.cursor - 1 } else { 0 } }
}

pub open spec fn spec_right(v: InputV) -> InputV {
    InputV {
        chars: v.chars,
        cursor: if v.cursor < v.chars.len() { v.cursor + 1 } else { v.chars.len() as int },
    }
}

pub open spec fn spec_home(v: InputV) -> InputV {
    InputV { chars: v.chars, cursor: 0 }
}

pub open spec fn spec_end(v: InputV) -> InputV {
    InputV { chars: v.chars, cursor: v.chars.len() as int }
}

impl InputBuffer {
    pub fn new() -> (r: InputBuffer)
        ensures
            r@ == spec_empty_input(),
            r@.wf(),
    {
        let r = InputBuffer { chars: Vec::new(), cursor: 0 };
        proof {
            assert(r@ =~= spec_empty_input());
        }
        r
    }

    /// Inserts `c` at the cursor; everything after it shifts forward.
    pub fn insert_char(&mut self, c: char)
        requires
            old(self)@.wf(),
        ensures
            final(self)@ == spec_insert(old(self)@, c),
            final(self)@.wf(),
    {
        self.chars.insert(self.cursor, c);
        let n = self.chars.len();
        proof {
            assert(self.cursor < n);
        }
        self.cursor = self.cursor + 1;
        proof {
            assert(self@ =~= spec_insert(old(self)@, c));
        }
    }

    /// Removes the character before the cursor, when there is one.
    pub fn backspace(&mut self)
        requires
            old(self)@.wf(),
        ensures
            final(self)@ == spec_backspace(old(self)@),
            final(self)@.wf(),
    {
        if self.cursor > 0 {
            self.cursor = self.cursor - 1;
            self.chars.remove(self.cursor);
        }
        proof {
            assert(self@ =~= spec_backspace(old(self)@));
        }
    }

    /// Removes the character under the cursor, when there is one.
    pub fn delete_forward(&mut self)
        requires
            old(self)@.wf(),
        ensures
            final(self)@ == spec_delete(old(self)@),
            final(self)@.wf(),
    {
        if self.cursor < self.chars.len() {
            self.chars.remove(self.cursor);
        }
        proof {
            assert(self@ =~= spec_delete(old(self)@));
        }
    }

    pub fn move_left(&mut self)
        requires
            old(self)@.wf(),
        ensures
            final(self)@ == spec_left(old(self)@),
            final(self)@.wf(),
    {
        if self.cursor > 0 {
            self.cursor = self.cursor - 1;
        }
        proof {
            assert(self@ =~= spec_left(old(self)@));
        }
    }

    pub fn move_right(&mut self)
        requires
            old(self)@.wf(),
        ensures
            final(self)@ == spec_right(old(self)@),
            final(self)@.wf(),
    {
        if self.cursor < self.chars.len() {
            self.cursor = self.cursor + 1;
        }
        proof {
            assert(self@ =~= spec_right(old(self)@));
        }
    }

    pub fn move_home(&mut self)
        requires
            old(self)@.wf(),
        ensures
            final(self)@ == spec_home(old(self)@),
            final(self)@.wf(),
    {
        self.cursor = 0;
        proof {
            assert(self@ =~= spec_home(old(self)@));
        }
    }

    pub fn move_end(&mut self)
        requires
            old(self)@.wf(),
        ensures
            final(self)@ == spec_end(old(self)@),
            final(self)@.wf(),
    {
        self.cursor = self.chars.len();
        proof {
            assert(self@ =~= spec_end(old(self)@));
        }
    }

    /// Empties the buffer and returns the cursor to the start.
    pub fn clear(&mut self)
        ensures
            final(self)@ == spec_empty_input(),
            final(self)@.wf(),
    {
        self.chars = Vec::new();
        self.cursor = 0;
        proof {
            assert(self@ =~= spec_empty_input());
        }
    }
}

} // verus!
