//! The cell data types: a cell's binary state, its terminal-character
//! footprint, and the cell value itself (a grid location plus a state).

use vstd::prelude::*;

verus! {

/// Binary state of one grid cell.
#[derive(Debug, Clone, Copy, PartialEq, Eq)]
pub enum CellState {
    Alive,
    Dead,
}

/// The terminal-character footprint of one logical cell, as width x height
/// in character cells: Small = 2x1, Medium = 3x2, Large = 5x3.
#[derive(Debug, Clone, Copy, PartialEq, Eq)]
pub enum CellSize {
    Small,
    Medium,
    Large,
}

/// Maps an ASCII uppercase letter to its lowercase form; leaves every other
/// character unchanged.
pub open spec fn lower_char(c: char) -> char {
    if 'A' <= c && c <= 'Z' {
        ((c as u8) + 32) as char
    } else {
        c
    }
}

/// Case-insensitive (ASCII) equality of two character sequences.
pub open spec fn eq_ignore_case(a: Seq<char>, b: Seq<char>) -> bool {
    a.len() == b.len() && forall|i: int| 0 <= i < a.len() ==> lower_char(a[i]) == lower_char(b[i])
}

fn lower_char_exec(c: char) -> (r: char)
    ensures
        r == lower_char(c),
{
    if 'A' <= c && c <= 'Z' {
        ((c as u8) + 32) as char
    } else {
        c
    }
}

/// Compares two strings for case-insensitive (ASCII) equality.
fn str_eq_ignore_case(a: &str, b: &str) -> (r: bool)
    ensures
        r == eq_ignore_case(a@, b@),
{
    let a_len = a.unicode_len();
    let b_len = b.unicode_len();
    if a_len != b_len {
        return false;
    }
    let mut i: usize = 0;
    while i < a_len
        invariant
            a_len == a@.len(),
            b_len == b@.len(),
            a_len == b_len,
            0 <= i <= a_len,
            forall|j: int| 0 <= j < i ==> lower_char(a@[j]) == lower_char(b@[j]),
        decreases a_len - i,
    {
        let ca = a.get_char(i);
        let cb = b.get_char(i);
        if lower_char_exec(ca) != lower_char_exec(cb) {
            return false;
        }
        i = i + 1;
    }
    true
}

proof fn lemma_keywords_disjoint(s: Seq<char>)
    ensures
        !(eq_ignore_case(s, "small"@) && eq_ignore_case(s, "large"@)),
        !(eq_ignore_case(s, "sm"@) && eq_ignore_case(s, "md"@)),
        !(eq_ignore_case(s, "sm"@) && eq_ignore_case(s, "lg"@)),
        !(eq_ignore_case(s, "md"@) && eq_ignore_case(s, "lg"@)),
{
    reveal_strlit("small");
    reveal_strlit("large");
    reveal_strlit("sm");
    reveal_strlit("md");
    reveal_strlit("lg");
    if eq_ignore_case(s, "small"@) && eq_ignore_case(s, "large"@) {
        assert(lower_char(s[0]) == lower_char("small"@[0]));
        assert(lower_char(s[0]) == lower_char("large"@[0]));
    }
    if eq_ignore_case(s, "sm"@) && eq_ignore_case(s, "md"@) {
        assert(lower_char(s[0]) == lower_char("sm"@[0]));
        assert(lower_char(s[0]) == lower_char("md"@[0]));
    }
    if eq_ignore_case(s, "sm"@) && eq_ignore_case(s, "lg"@) {
        assert(lower_char(s[0]) == lower_char("sm"@[0]));
        assert(lower_char(s[0]) == lower_char("lg"@[0]));
    }
    if eq_ignore_case(s, "md"@) && eq_ignore_case(s, "lg"@) {
        assert(lower_char(s[0]) == lower_char("md"@[0]));
        assert(lower_char(s[0]) == lower_char("lg"@[0]));
    }
}

impl CellSize {
    /// Width of one cell, in terminal character cells.
    pub open spec fn spec_width(self) -> u16 {
        match self {
            CellSize::Small => 2,
            CellSize::Medium => 3,
            CellSize::Large => 5,
        }
    }

    /// Height of one cell, in terminal character cells.
    pub open spec fn spec_height(self) -> u16 {
        match self {
            CellSize::Small => 1,
            CellSize::Medium => 2,
            CellSize::Large => 3,
        }
    }

    pub fn width(&self) -> (r: u16)
        ensures
            r == self.spec_width(),
    {
        match self {
            CellSize::Small => 2,
            CellSize::Medium => 3,
            CellSize::Large => 5,
        }
    }

    pub fn height(&self) -> (r: u16)
        ensures
            r == self.spec_height(),
    {
        match self {
            CellSize::Small => 1,
            CellSize::Medium => 2,
            CellSize::Large => 3,
        }
    }

    /// Parses a cell-size selector, accepting the case-insensitive values
    /// `small`/`sm`, `medium`/`md` and `large`/`lg`; everything else is
    /// rejected.
    pub fn parse(s: &str) -> (r: Result<CellSize, ()>)
        ensures
            r == Ok::<CellSize, ()>(CellSize::Small) <==> (eq_ignore_case(s@, "small"@)
                || eq_ignore_case(s@, "sm"@)),
            r == Ok::<CellSize, ()>(CellSize::Medium) <==> (eq_ignore_case(s@, "medium"@)
                || eq_ignore_case(s@, "md"@)),
            r == Ok::<CellSize, ()>(CellSize::Large) <==> (eq_ignore_case(s@, "large"@)
                || eq_ignore_case(s@, "lg"@)),
            r is Err <==> !(eq_ignore_case(s@, "small"@) || eq_ignore_case(s@, "sm"@)
                || eq_ignore_case(s@, "medium"@) || eq_ignore_case(s@, "md"@)
                || eq_ignore_case(s@, "large"@) || eq_ignore_case(s@, "lg"@)),
    {
        proof {
            reveal_strlit("small");
            reveal_strlit("sm");
            reveal_strlit("medium");
            reveal_strlit("md");
            reveal_strlit("large");
            reveal_strlit("lg");
            lemma_keywords_disjoint(s@);
        }
        if str_eq_ignore_case(s, "small") || str_eq_ignore_case(s, "sm") {
            Ok(CellSize::Small)
        } else if str_eq_ignore_case(s, "medium") || str_eq_ignore_case(s, "md") {
            Ok(CellSize::Medium)
        } else if str_eq_ignore_case(s, "large") || str_eq_ignore_case(s, "lg") {
            Ok(CellSize::Large)
        } else {
            Err(())
        }
    }

    /// The lowercase name of the variant, as it is written on the command
    /// line and in the status line.
    pub fn label(&self) -> (r: &'static str)
        ensures
            self is Small ==> r@ == "small"@,
            self is Medium ==> r@ == "medium"@,
            self is Large ==> r@ == "large"@,
    {
        match self {
            CellSize::Small => "small",
            CellSize::Medium => "medium",
            CellSize::Large => "large",
        }
    }
}

/// One grid cell: its (row, column) location and its state.
#[derive(Debug, Clone, Copy, PartialEq, Eq)]
pub struct Cell {
    pub location: (usize, usize),
    pub state: CellState,
}

impl Cell {
    pub fn new(location: (usize, usize), state: CellState) -> (r: Cell)
        ensures
            r.location == location,
            r.state == state,
    {
        Cell { location, state }
    }

    pub fn is_alive(&self) -> (r: bool)
        ensures
            r <==> self.state is Alive,
    {
        match self.state {
            CellState::Alive => true,
            CellState::Dead => false,
        }
    }
}

} // verus!
