//! The scroll engine: an estimated total line count for the transcript and a
//! view state whose offset always stays inside `[0, max_scroll]`, with a
//! pinned-to-bottom mode that tracks the newest content.
//!
//! The line estimate charges each turn a fixed overhead plus its raw line
//! count; it deliberately does not run the word-wrap pass, so it may differ
//! from the renderer's exact count.

use vstd::prelude::*;
use crate::text::lines_spec;
use crate::text::split_lines;
use crate::transcript::Turn;
use crate::transcript::TurnV;

verus! {

/// Scroll offset, pinned-to-bottom mode, and the current upper bound.
pub struct ViewState {
    pub scroll: usize,
    pub pinned: bool,
    pub max_scroll: usize,
}

#[verifier::ext_equal]
pub ghost struct ViewStateV {
    pub scroll: int,
    pub pinned: bool,
    pub max_scroll: int,
}

impl View for ViewState {
    type V = ViewStateV;

    open spec fn view(&self) -> ViewStateV {
        ViewStateV { scroll: self.scroll as int, pinned: self.pinned, max_scroll: self.max_scroll as int }
    }
}

impl ViewStateV {
    /// The scroll invariant: the offset never leaves `[0, max_scroll]`.
    pub open spec fn wf(self) -> bool {
        0 <= self.scroll <= self.max_scroll
    }
}

pub open spec fn spec_initial_view() -> ViewStateV {
    ViewStateV { scroll: 0, pinned: true, max_scroll: 0 }
}

/// Scrolling up unpins from the bottom and moves by `amount`, floored at 0.
pub open spec fn spec_scroll_up(v: ViewStateV, amount: int) -> ViewStateV {
    ViewStateV {
        scroll: if v.scroll >= amount { v.scroll - amount } else { 0 },
        pinned: false,
        max_scroll: v.max_scroll,
    }
}

/// Scrolling down moves by `amount`, capped at `max_scroll`; landing on the
/// bottom re-enables pinning.
pub open spec fn spec_scroll_down(v: ViewStateV, amount: int) -> ViewStateV {
    let s = if v.scroll + amount <= v.max_scroll { v.scroll + amount } else { v.max_scroll };
    ViewStateV {
        scroll: s,
        pinned: if s >= v.max_scroll { true } else { v.pinned },
        max_scroll: v.max_scroll,
    }
}

/// Recomputation: `max_scroll` becomes the estimated overflow past the
/// viewport; pinning forces the offset to the bottom, and otherwise the
/// offset is clamped into the new bounds.
pub open spec fn spec_update(v: ViewStateV, total_lines: int, visible_height: int) -> ViewStateV {
    let m = if total_lines >= visible_height { total_lines - visible_height } else { 0 };
    ViewStateV {
        scroll: if v.pinned { m } else if v.scroll <= m { v.scroll } else { m },
        pinned: v.pinned,
        max_scroll: m,
    }
}

impl ViewState {
    pub fn new() -> (r: ViewState)
        ensures
            r@ == spec_initial_view(),
            r@.wf(),
    {
        let r = ViewState { scroll: 0, pinned: true, max_scroll: 0 };
        proof {
            assert(r@ =~= spec_initial_view());
        }
        r
    }

    pub fn scroll_up(&mut self, amount: usize)
        requires
            old(self)@.wf(),
        ensures
            final(self)@ == spec_scroll_up(old(self)@, amount as int),
            final(self)@.wf(),
    {
        self.pinned = false;
        if self.scroll >= amount {
            self.scroll = self.scroll - amount;
        } else {
            self.scroll = 0;
        }
        proof {
            assert(self@ =~= spec_scroll_up(old(self)@, amount as int));
        }
    }

    pub fn scroll_down(&mut self, amount: usize)
        requires
            old(self)@.wf(),
        ensures
            final(self)@ == spec_scroll_down(old(self)@, amount as int),
            final(self)@.wf(),
    {
        if amount <= self.max_scroll - self.scroll {
            self.scroll = self.scroll + amount;
        } else {
            self.scroll = self.max_scroll;
        }
        if self.scroll >= self.max_scroll {
            self.pinned = true;
        }
        proof {
            assert(self@ =~= spec_scroll_down(old(self)@, amount as int));
        }
    }

    /// Recomputes the bounds from the estimated line total and clamps or
    /// pins the offset; afterwards `0 <= scroll <= max_scroll`, and pinned
    /// mode has put the offset exactly at the bottom.
    pub fn update(&mut self, total_lines: usize, visible_height: usize)
        ensures
            final(self)@ == spec_update(old(self)@, total_lines as int, visible_height as int),
            final(self)@.wf(),
            final(self).pinned ==> final(self).scroll == final(self).max_scroll,
    {
        self.max_scroll = if total_lines >= visible_height {
            total_lines - visible_height
        } else {
            0
        };
        if self.pinned {
            self.scroll = self.max_scroll;
        } else if self.scroll > self.max_scroll {
            self.scroll = self.max_scroll;
        }
        proof {
            assert(self@ =~= spec_update(old(self)@, total_lines as int, visible_height as int));
        }
    }
}

/// Recomputing the view state twice from unchanged inputs changes nothing
/// after the first time: the same offset and the same bound come out.
pub proof fn lemma_update_idempotent(v: ViewStateV, total_lines: int, visible_height: int)
    ensures
        spec_update(spec_update(v, total_lines, visible_height), total_lines, visible_height)
            == spec_update(v, total_lines, visible_height),
{
    assert(spec_update(spec_update(v, total_lines, visible_height), total_lines, visible_height)
        =~= spec_update(v, total_lines, visible_height));
}

/// The estimated rendered line count of one turn: a fixed overhead for the
/// header, spacing and separator, plus the turn's raw line count.
pub open spec fn est_turn_lines(t: TurnV) -> int {
    8 + lines_spec(t.content).len() as int
}

pub open spec fn est_total_lines(ts: Seq<TurnV>) -> int
    decreases ts.len(),
{
    if ts.len() == 0 {
        0
    } else {
        est_total_lines(ts.drop_last()) + est_turn_lines(ts.last())
    }
}

/// `x` capped at the largest `usize` value.
pub open spec fn cap_usize(x: int) -> int {
    if x <= usize::MAX as int {
        x
    } else {
        usize::MAX as int
    }
}

fn sat_add(a: usize, b: usize) -> (r: usize)
    ensures
        r as int == cap_usize(a as int + b as int),
{
    if a <= usize::MAX - b {
        a + b
    } else {
        usize::MAX
    }
}

proof fn lemma_cap_add(x: int, y: int)
    requires
        0 <= x,
        0 <= y,
    ensures
        cap_usize(cap_usize(x) + cap_usize(y)) == cap_usize(x + y),
{
}

proof fn lemma_est_total_nonneg(ts: Seq<TurnV>)
    ensures
        est_total_lines(ts) >= 0,
    decreases ts.len(),
{
    if ts.len() > 0 {
        lemma_est_total_nonneg(ts.drop_last());
    }
}

/// Sums the per-turn estimates, saturating at the largest `usize` value.
pub fn estimate_total_lines(turns: &Vec<Turn>) -> (r: usize)
    ensures
        r as int == cap_usize(est_total_lines(turns.deep_view())),
{
    let ghost ts = turns.deep_view();
    let mut total: usize = 0;
    let mut idx: usize = 0;
    proof {
        assert(ts.take(0) =~= Seq::<TurnV>::empty());
    }
    while idx < turns.len()
        invariant
            idx <= turns.len(),
            ts == turns.deep_view(),
            ts.len() == turns.len(),
            total as int == cap_usize(est_total_lines(ts.take(idx as int))),
        decreases turns.len() - idx,
    {
        let content_lines = split_lines(turns[idx].content.as_str()).len();
        let with_overhead = sat_add(8, content_lines);
        proof {
            assert(turns[idx as int].deep_view() == ts[idx as int]);
            assert(content_lines as int == lines_spec(ts[idx as int].content).len());
            lemma_est_total_nonneg(ts.take(idx as int));
            lemma_cap_add(est_total_lines(ts.take(idx as int)), est_turn_lines(ts[idx as int]));
            assert(ts.take(idx as int + 1).drop_last() =~= ts.take(idx as int));
            assert(ts.take(idx as int + 1).last() == ts[idx as int]);
        }
        total = sat_add(total, with_overhead);
        idx = idx + 1;
    }
    proof {
        assert(ts.take(ts.len() as int) =~= ts);
    }
    total
}

} // verus!
