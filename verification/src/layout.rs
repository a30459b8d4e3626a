//! The layout planner: which characters of the input fit on the terminal,
//! and where every frame starts.

use vstd::prelude::*;
use vstd::std_specs::iter::IteratorSpec;

use crate::chance::{tally, RandomSource};
use crate::config::Config;
use crate::metrics::{columns, white_space};
use crate::record::{passes_through, CharRecord};
use crate::timing::{MAX_DELAY_MS, MIN_DELAY_MS};

verus! {

/// The size of the terminal, in character cells.
#[derive(Clone, Copy, Debug, PartialEq, Eq, Structural)]
pub struct Terminal {
    /// Number of columns.
    pub cols: u16,
    /// Number of rows.
    pub rows: u16,
}

/// A position on the terminal.
#[derive(Clone, Copy, Debug, PartialEq, Eq, Structural)]
pub struct Cursor {
    /// Row, counted from 0 at the top.
    pub row: u16,
    /// Column, counted from 0 at the left.
    pub col: u16,
}

/// The planner's result: the records of the characters that fit, in input
/// order, and the position at which every frame starts.
#[derive(Debug)]
pub struct Layout {
    /// One record for each accepted character.
    pub records: Vec<CharRecord>,
    /// Row of the origin.
    pub origin_row: u16,
    /// Column of the origin.
    pub origin_col: u16,
}

/// The planner's virtual cursor, together with the row of the origin.
pub struct Pen {
    /// Row of the virtual cursor.
    pub row: int,
    /// Column of the virtual cursor.
    pub col: int,
    /// Row of the origin.
    pub origin_row: int,
}

/// The pen with the virtual cursor at `cursor` and the origin in the row
/// `origin_row`.
pub open spec fn pen_at(cursor: Cursor, origin_row: u16) -> Pen {
    Pen { row: cursor.row as int, col: cursor.col as int, origin_row: origin_row as int }
}

/// The pen before the first character when the effect takes the whole
/// screen: the virtual cursor at `cursor`, the origin in the top row.
pub open spec fn starting_pen(cursor: Cursor) -> Pen {
    pen_at(cursor, 0)
}

/// Whether another character is accepted at `pen`: the virtual cursor has
/// not come down to the last row that the terminal has below the origin.
pub open spec fn has_room(pen: Pen, term: Terminal) -> bool {
    pen.row - pen.origin_row < term.rows - 1
}

/// The pen after a line feed: at the start of the next row, and one row
/// further if that row is just below the terminal or the terminal has no
/// columns; when this second step ends just below the terminal and the
/// origin is not in the top row, origin and cursor both move up one row.
pub open spec fn wrapped(pen: Pen, term: Terminal) -> Pen {
    let down = Pen { row: pen.row + 1, col: 0, origin_row: pen.origin_row };
    if down.row == term.rows + 1 || down.col == term.cols {
        if down.row + 1 == term.rows + 1 && down.origin_row > 0 {
            Pen { row: down.row, col: 0, origin_row: down.origin_row - 1 }
        } else {
            Pen { row: down.row + 1, col: 0, origin_row: down.origin_row }
        }
    } else {
        down
    }
}

/// The pen after the character `c`: moved right by the width of `c`, and
/// wrapped if `c` is a line feed.
pub open spec fn advanced(pen: Pen, c: char, term: Terminal) -> Pen {
    let moved = Pen { row: pen.row, col: pen.col + columns(c), origin_row: pen.origin_row };
    if c == '\n' {
        wrapped(moved, term)
    } else {
        moved
    }
}

/// The pen after the first `n` characters of `text`, starting from `start`.
pub open spec fn pen_after(text: Seq<char>, n: nat, start: Pen, term: Terminal) -> Pen
    decreases n,
{
    if n == 0 {
        start
    } else {
        advanced(pen_after(text, (n - 1) as nat, start, term), text[n - 1], term)
    }
}

/// Whether the planner accepts exactly the first `n` characters of `text`:
/// each of them finds room, and the next one, if there is one, finds none.
pub open spec fn is_plan_length(text: Seq<char>, start: Pen, term: Terminal, n: nat) -> bool {
    &&& n <= text.len()
    &&& forall|k: nat| k < n ==> has_room(#[trigger] pen_after(text, k, start, term), term)
    &&& n < text.len() ==> !has_room(pen_after(text, n, start, term), term)
}

impl Layout {
    /// Whether this is a plan for `text` on a terminal of size `term` when
    /// the pen sets out from `start`: there is one well-formed record for
    /// each accepted character, in input order, with the character's width
    /// and passthrough mark and, unless it passes through, a delay from the
    /// range of the reveal delays; and the origin is where the pen leaves it
    /// after the accepted characters, in the first column.
    pub open spec fn is_plan_of(
        &self,
        text: Seq<char>,
        term: Terminal,
        start: Pen,
        config: Config,
    ) -> bool {
        &&& is_plan_length(text, start, term, self.records@.len())
        &&& forall|i: int|
            0 <= i < self.records@.len() ==> {
                let record = #[trigger] self.records@[i];
                &&& record.well_formed()
                &&& record.source == text[i]
                &&& record.display_width == columns(text[i])
                &&& record.is_passthrough == passes_through(
                    text[i],
                    white_space(text[i]),
                    config.mask_blank,
                )
                &&& !record.is_passthrough ==> MIN_DELAY_MS <= record.remaining_delay
                    < MAX_DELAY_MS
            }
        &&& self.origin_row == pen_after(text, self.records@.len(), start, term).origin_row
        &&& self.origin_col == 0
    }
}

/// Plans the effect for `text` on a terminal of size `term` whose cursor is
/// at `cursor`, for an effect that takes the whole screen: the origin sets
/// out from the top row.
///
/// Characters are accepted in order for as long as the virtual cursor has
/// room; the first character that finds none ends the plan, and it and
/// everything after it are left out. So there are never more records than
/// characters, and as many when room never runs out. Every accepted
/// character gets a record with its width, its passthrough mark, a mask glyph
/// and, unless it passes through, a reveal delay drawn from `rng`. The origin
/// is where the pen leaves it after the accepted characters, which from the
/// top row is the top row.
pub fn plan_layout(
    text: &str,
    term: Terminal,
    cursor: Cursor,
    config: Config,
    rng: &mut RandomSource,
) -> (layout: Layout)
    ensures
        layout.records@.len() <= text@.len(),
        (forall|n: nat|
            n < text@.len() ==> has_room(
                #[trigger] pen_after(text@, n, starting_pen(cursor), term),
                term,
            )) ==> layout.records@.len() == text@.len(),
        layout.is_plan_of(text@, term, starting_pen(cursor), config),
        layout.origin_row == 0,
        final(rng).glyphs_drawn() == tally(old(rng).glyphs_drawn(), layout.records@.len()),
{
    assert(starting_pen(cursor) == pen_at(cursor, 0));
    let layout = plan_layout_from(text, term, cursor, 0, config, rng);
    proof {
        lemma_origin_stays_on_top(text@, layout.records@.len() as nat, cursor, term);
    }
    layout
}

/// Plans the effect like `plan_layout`, with the origin setting out from the
/// row `origin_row`. Room is counted from the origin, and only an origin
/// below the top row can be moved by a line feed.
pub fn plan_layout_from(
    text: &str,
    term: Terminal,
    cursor: Cursor,
    origin_row: u16,
    config: Config,
    rng: &mut RandomSource,
) -> (layout: Layout)
    ensures
        layout.records@.len() <= text@.len(),
        (forall|n: nat|
            n < text@.len() ==> has_room(
                #[trigger] pen_after(text@, n, pen_at(cursor, origin_row), term),
                term,
            )) ==> layout.records@.len() == text@.len(),
        layout.is_plan_of(text@, term, pen_at(cursor, origin_row), config),
        final(rng).glyphs_drawn() == tally(old(rng).glyphs_drawn(), layout.records@.len()),
{
    broadcast use vstd::string::group_string_axioms;

    let mut records: Vec<CharRecord> = Vec::new();
    // Of the pen only the rows are kept at run time: the column decides
    // nothing but the second wrap, and there it has just been set to zero.
    let mut row: u32 = cursor.row as u32;
    let mut origin_row: u16 = origin_row;
    let ghost start = pen_at(cursor, origin_row);
    let ghost mut pen = start;
    let mut chars = text.chars();
    loop
        invariant_except_break
            chars.remaining() == text@.skip(records@.len() as int),
        invariant
            records@.len() <= text@.len(),
            chars.decrease() is Some,
            pen == pen_after(text@, records@.len(), start, term),
            row == pen.row,
            origin_row == pen.origin_row,
            row <= 2 * u16::MAX,
            forall|n: nat|
                n < records@.len() ==> has_room(#[trigger] pen_after(text@, n, start, term), term),
            forall|i: int|
                0 <= i < records@.len() ==> {
                    let record = #[trigger] records@[i];
                    &&& record.well_formed()
                    &&& record.source == text@[i]
                    &&& record.display_width == columns(text@[i])
                    &&& record.is_passthrough == passes_through(
                        text@[i],
                        white_space(text@[i]),
                        config.mask_blank,
                    )
                    &&& !record.is_passthrough ==> MIN_DELAY_MS <= record.remaining_delay
                        < MAX_DELAY_MS
                },
            rng.glyphs_drawn() == tally(old(rng).glyphs_drawn(), records@.len()),
        ensures
            records@.len() < text@.len() ==> !has_room(pen, term),
        decreases chars.decrease()->0,
    {
        let c = match chars.next() {
            Some(c) => c,
            None => {
                break ;
            },
        };
        // Text that would run below the terminal is cut off here.
        if row + 1 >= term.rows as u32 + origin_row as u32 {
            break ;
        }
        let record = CharRecord::new(c, config.mask_blank, rng);
        records.push(record);
        if c == '\n' {
            row = row + 1;
            if row == term.rows as u32 + 1 || term.cols == 0 {
                row = row + 1;
                if row == term.rows as u32 + 1 && origin_row > 0 {
                    origin_row = origin_row - 1;
                    row = row - 1;
                }
            }
        }
        proof {
            pen = advanced(pen, c, term);
        }
    }
    Layout { records, origin_row, origin_col: 0 }
}

/// Planning for the whole screen starts with the origin in the top row, and
/// there it stays: the origin only ever moves up, and from the top row it
/// cannot. The virtual cursor never rises above the row it set out from.
pub proof fn lemma_origin_stays_on_top(text: Seq<char>, n: nat, cursor: Cursor, term: Terminal)
    ensures
        pen_after(text, n, starting_pen(cursor), term).origin_row == 0,
        pen_after(text, n, starting_pen(cursor), term).row >= cursor.row,
    decreases n,
{
    if n > 0 {
        lemma_origin_stays_on_top(text, (n - 1) as nat, cursor, term);
    }
}

/// Wherever the pen sets out from, the origin never moves down and never
/// leaves the screen at the top. It moves up by one row at most, only on a
/// terminal without columns, and then the virtual cursor is below the
/// terminal's last row. The distance from the origin to the virtual cursor
/// never shrinks.
pub proof fn lemma_origin_only_moves_up(text: Seq<char>, n: nat, start: Pen, term: Terminal)
    requires
        start.origin_row >= 0,
    ensures
        0 <= pen_after(text, n, start, term).origin_row <= start.origin_row,
        start.origin_row - 1 <= pen_after(text, n, start, term).origin_row,
        pen_after(text, n, start, term).origin_row < start.origin_row ==> term.cols == 0
            && pen_after(text, n, start, term).row >= term.rows,
        pen_after(text, n, start, term).row - pen_after(text, n, start, term).origin_row
            >= start.row - start.origin_row,
    decreases n,
{
    if n > 0 {
        lemma_origin_only_moves_up(text, (n - 1) as nat, start, term);
    }
}

/// Chance has no part in the plan but for masks and delays: two plans for
/// the same text, terminal, start and configuration have the same number of
/// records, with the same sources, widths and passthrough marks in the same
/// order, and the same origin.
pub proof fn lemma_plan_is_determined(
    a: Layout,
    b: Layout,
    text: Seq<char>,
    term: Terminal,
    start: Pen,
    config: Config,
)
    requires
        a.is_plan_of(text, term, start, config),
        b.is_plan_of(text, term, start, config),
    ensures
        a.records@.len() == b.records@.len(),
        forall|i: int|
            0 <= i < a.records@.len() ==> {
                &&& (#[trigger] a.records@[i]).source == b.records@[i].source
                &&& a.records@[i].display_width == b.records@[i].display_width
                &&& a.records@[i].is_passthrough == b.records@[i].is_passthrough
            },
        a.origin_row == b.origin_row,
        a.origin_col == b.origin_col,
{
    lemma_plan_length_is_unique(text, start, term, a.records@.len(), b.records@.len());
}

/// The characters that a record is made for are those before the first one
/// that finds no room: the number of records is the only length that the
/// planner's contract admits.
pub proof fn lemma_plan_length_is_unique(
    text: Seq<char>,
    start: Pen,
    term: Terminal,
    a: nat,
    b: nat,
)
    requires
        is_plan_length(text, start, term, a),
        is_plan_length(text, start, term, b),
    ensures
        a == b,
{
    if a < b {
        assert(has_room(pen_after(text, a, start, term), term));
    } else if b < a {
        assert(has_room(pen_after(text, b, start, term), term));
    }
}

} // verus!
