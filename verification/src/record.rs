//! The per-character record of the effect and what a record shows in each
//! phase.

use vstd::prelude::*;

use crate::chance::{tally, Odds, RandomSource};
use crate::glyphs::is_glyph;
use crate::metrics::{char_is_whitespace, columns, display_width, white_space, MAX_WIDTH};
use crate::timing::{
    MAX_DELAY_MS, MAX_REVEAL_FRAMES, MIN_DELAY_MS, NEARLY_DUE_MS, REVEAL_INTERVAL_MS,
};

verus! {

/// What one record puts on the screen in one frame.
#[derive(Clone, Copy, Debug, PartialEq, Eq, Structural)]
pub enum Cell {
    /// A passthrough character, written as it is.
    Plain(char),
    /// One glyph that hides the character.
    Masked(char),
    /// A glyph that hides a character of two columns, and the glyph that
    /// fills its second column.
    MaskedWide(char, char),
    /// The character itself, shown in the foreground colour.
    Revealed(char),
}

/// One character of the input with its animation state.
#[derive(Clone, Copy, Debug, PartialEq, Eq, Structural)]
pub struct CharRecord {
    /// The character of the input.
    pub source: char,
    /// The glyph shown in place of `source` until it is revealed.
    pub mask: char,
    /// Terminal columns that `source` takes: 0, 1 or 2.
    pub display_width: u8,
    /// Whether the character is always shown as it is.
    pub is_passthrough: bool,
    /// Milliseconds until the character is revealed; 0 once it is.
    pub remaining_delay: u64,
}

/// Whether a character is shown as it is from the start: a line feed always,
/// white space unless blanks are masked too.
pub open spec fn spec_passes_through(source: char, blank: bool, mask_blank: bool) -> bool {
    source == '\n' || (blank && !mask_blank)
}

/// Whether a character is shown as it is from the start: a line feed always,
/// white space unless blanks are masked too. `blank` says whether `source`
/// is white space.
#[verifier::when_used_as_spec(spec_passes_through)]
pub fn passes_through(source: char, blank: bool, mask_blank: bool) -> (shown: bool)
    ensures
        shown == spec_passes_through(source, blank, mask_blank),
{
    source == '\n' || (blank && !mask_blank)
}

/// `delay` after one reveal frame.
pub open spec fn shortened(delay: u64) -> u64 {
    if delay >= REVEAL_INTERVAL_MS {
        (delay - REVEAL_INTERVAL_MS) as u64
    } else {
        0
    }
}

/// `delay` after so many reveal frames.
pub open spec fn delay_after(delay: u64, frames: nat) -> u64
    decreases frames,
{
    if frames == 0 {
        delay
    } else {
        shortened(delay_after(delay, (frames - 1) as nat))
    }
}

/// Number of reveal frames that it takes to bring `delay` down to zero.
pub open spec fn frames_to_reveal(delay: u64) -> nat {
    ((delay + REVEAL_INTERVAL_MS - 1) / REVEAL_INTERVAL_MS as int) as nat
}

impl CharRecord {
    /// The invariant of a record: a width of at most two columns, a mask
    /// from the alphabet, and no timer on a passthrough character.
    pub open spec fn well_formed(&self) -> bool {
        &&& self.display_width <= MAX_WIDTH
        &&& is_glyph(self.mask)
        &&& self.is_passthrough ==> self.remaining_delay == 0
    }

    /// Whether the record is still masked and waiting for its timer.
    pub open spec fn spec_is_pending(&self) -> bool {
        !self.is_passthrough && self.remaining_delay > 0
    }

    /// The odds at which a pending record changes its mask in a frame.
    pub open spec fn spec_refresh_odds(&self) -> Odds {
        if self.remaining_delay < NEARLY_DUE_MS {
            Odds::OneInThree
        } else {
            Odds::OneInTen
        }
    }

    /// The record after one reveal frame in which `fresh`, if any, replaces
    /// the mask of a pending record.
    pub open spec fn ticked(&self, fresh: Option<char>) -> CharRecord {
        if self.spec_is_pending() {
            CharRecord {
                mask: match fresh {
                    Some(glyph) => glyph,
                    None => self.mask,
                },
                remaining_delay: shortened(self.remaining_delay),
                ..*self
            }
        } else {
            *self
        }
    }

    /// What the record shows in a reveal frame, `after` being the record
    /// after that frame.
    pub open spec fn reveal_cell(&self, after: CharRecord) -> Cell {
        if self.is_passthrough {
            Cell::Plain(self.source)
        } else if self.remaining_delay > 0 {
            Cell::Masked(after.mask)
        } else {
            Cell::Revealed(self.source)
        }
    }

    /// Whether the record takes two columns and is masked.
    pub open spec fn is_wide_masked(&self) -> bool {
        !self.is_passthrough && self.display_width == MAX_WIDTH
    }

    /// Whether `cell` is what the record shows while the mask is laid down:
    /// its source if it passes through, else its mask, followed by a filler
    /// glyph if it takes two columns.
    pub open spec fn shows_mask(&self, cell: Cell) -> bool {
        if self.is_passthrough {
            cell == Cell::Plain(self.source)
        } else if self.display_width == MAX_WIDTH {
            cell matches Cell::MaskedWide(glyph, filler) && glyph == self.mask && is_glyph(filler)
        } else {
            cell == Cell::Masked(self.mask)
        }
    }

    /// Whether `cell` is something the record can show in a jumble frame:
    /// its source if it passes through, else any glyph, followed by a filler
    /// glyph if it takes two columns.
    pub open spec fn shows_jumble(&self, cell: Cell) -> bool {
        if self.is_passthrough {
            cell == Cell::Plain(self.source)
        } else if self.display_width == MAX_WIDTH {
            cell matches Cell::MaskedWide(glyph, filler) && is_glyph(glyph) && is_glyph(filler)
        } else {
            cell matches Cell::Masked(glyph) && is_glyph(glyph)
        }
    }

    /// Number of glyphs drawn to show the record while the mask is laid down.
    pub open spec fn mask_cost(&self) -> nat {
        if self.is_wide_masked() {
            1
        } else {
            0
        }
    }

    /// Number of glyphs drawn to show the record in a jumble frame.
    pub open spec fn jumble_cost(&self) -> nat {
        if self.is_passthrough {
            0
        } else if self.display_width == MAX_WIDTH {
            2
        } else {
            1
        }
    }

    /// Builds the record of `source` from what was found out and drawn for
    /// it. A passthrough character gets no timer, whatever `delay_ms` is.
    pub fn assemble(
        source: char,
        display_width: u8,
        blank: bool,
        mask_blank: bool,
        mask: char,
        delay_ms: u64,
    ) -> (record: CharRecord)
        ensures
            record.source == source,
            record.mask == mask,
            record.display_width == display_width,
            record.is_passthrough == passes_through(source, blank, mask_blank),
            record.remaining_delay == if record.is_passthrough {
                0
            } else {
                delay_ms
            },
            display_width <= MAX_WIDTH && is_glyph(mask) ==> record.well_formed(),
    {
        let is_passthrough = passes_through(source, blank, mask_blank);
        CharRecord {
            source,
            mask,
            display_width,
            is_passthrough,
            remaining_delay: if is_passthrough {
                0
            } else {
                delay_ms
            },
        }
    }

    /// Makes the record of `source`: measures it, draws its first mask and,
    /// unless it passes through, its reveal delay.
    pub fn new(source: char, mask_blank: bool, rng: &mut RandomSource) -> (record: CharRecord)
        ensures
            record.well_formed(),
            record.source == source,
            record.display_width == columns(source),
            record.is_passthrough == passes_through(source, white_space(source), mask_blank),
            !record.is_passthrough ==> MIN_DELAY_MS <= record.remaining_delay < MAX_DELAY_MS,
            final(rng).glyphs_drawn() == tally(old(rng).glyphs_drawn(), 1),
    {
        let width = display_width(source);
        let blank = char_is_whitespace(source);
        let mask = rng.glyph();
        let delay_ms = if passes_through(source, blank, mask_blank) {
            0
        } else {
            rng.delay_ms()
        };
        CharRecord::assemble(source, width, blank, mask_blank, mask, delay_ms)
    }

    /// Whether the record is still masked and waiting for its timer.
    #[verifier::when_used_as_spec(spec_is_pending)]
    pub fn is_pending(&self) -> (pending: bool)
        ensures
            pending == self.spec_is_pending(),
    {
        !self.is_passthrough && self.remaining_delay > 0
    }

    /// The odds at which a pending record changes its mask in a frame: one
    /// in three when it is nearly due, one in ten before.
    #[verifier::when_used_as_spec(spec_refresh_odds)]
    pub fn refresh_odds(&self) -> (odds: Odds)
        ensures
            odds == self.spec_refresh_odds(),
    {
        if self.remaining_delay < NEARLY_DUE_MS {
            Odds::OneInThree
        } else {
            Odds::OneInTen
        }
    }

    /// One reveal frame for this record. A pending record takes `fresh` as
    /// its mask if there is one, shows its mask and loses one frame interval
    /// of its delay, down to zero. Any other record stays as it is and shows
    /// its source.
    pub fn tick(&mut self, fresh: Option<char>) -> (cell: Cell)
        ensures
            *final(self) == old(self).ticked(fresh),
            cell == old(self).reveal_cell(*final(self)),
            old(self).well_formed() && (fresh matches Some(glyph) ==> is_glyph(glyph))
                ==> final(self).well_formed(),
    {
        if self.is_passthrough {
            Cell::Plain(self.source)
        } else if self.remaining_delay > 0 {
            if let Some(glyph) = fresh {
                self.mask = glyph;
            }
            self.remaining_delay = self.remaining_delay.saturating_sub(REVEAL_INTERVAL_MS);
            Cell::Masked(self.mask)
        } else {
            Cell::Revealed(self.source)
        }
    }

    /// What the record shows while the mask is first laid down. The filler
    /// glyph of a wide character is drawn from `rng`.
    pub fn mask_cell(&self, rng: &mut RandomSource) -> (cell: Cell)
        ensures
            self.shows_mask(cell),
            final(rng).glyphs_drawn() == tally(old(rng).glyphs_drawn(), self.mask_cost()),
    {
        if self.is_passthrough {
            Cell::Plain(self.source)
        } else if self.display_width == MAX_WIDTH {
            let filler = rng.glyph();
            Cell::MaskedWide(self.mask, filler)
        } else {
            Cell::Masked(self.mask)
        }
    }

    /// What the record shows in one jumble frame: glyphs drawn afresh from
    /// `rng`, whatever its mask is. The record itself does not change.
    pub fn jumble_cell(&self, rng: &mut RandomSource) -> (cell: Cell)
        ensures
            self.shows_jumble(cell),
            final(rng).glyphs_drawn() == tally(old(rng).glyphs_drawn(), self.jumble_cost()),
    {
        if self.is_passthrough {
            Cell::Plain(self.source)
        } else {
            let glyph = rng.glyph();
            if self.display_width == MAX_WIDTH {
                let filler = rng.glyph();
                Cell::MaskedWide(glyph, filler)
            } else {
                Cell::Masked(glyph)
            }
        }
    }

    /// One reveal frame for this record, with the chance of a new mask taken
    /// from `rng`: a pending record changes its mask at its refresh odds,
    /// then does what `tick` says.
    pub fn reveal_step(&mut self, rng: &mut RandomSource) -> (cell: Cell)
        ensures
            *final(self) == old(self).ticked(Some(final(self).mask)),
            final(self).mask == old(self).mask || is_glyph(final(self).mask),
            cell == old(self).reveal_cell(*final(self)),
            old(self).well_formed() ==> final(self).well_formed(),
            final(rng).glyphs_drawn() == old(rng).glyphs_drawn() || (old(self).is_pending()
                && final(rng).glyphs_drawn() == tally(old(rng).glyphs_drawn(), 1)),
    {
        let mut fresh: Option<char> = None;
        if self.is_pending() {
            let odds = self.refresh_odds();
            if odds.is_hit(rng.roll(odds)) {
                fresh = Some(rng.glyph());
            }
        }
        self.tick(fresh)
    }
}

/// A frame shortens every positive delay, and never lengthens one.
pub proof fn lemma_frame_shortens_delay(delay: u64)
    ensures
        shortened(delay) <= delay,
        delay > 0 ==> shortened(delay) < delay,
        frames_to_reveal(shortened(delay)) == if delay > 0 {
            frames_to_reveal(delay) - 1
        } else {
            0
        },
        frames_to_reveal(delay) == 0 <==> delay == 0,
{
}

/// After `frames` frames a delay has lost `frames` intervals, down to zero;
/// it is zero from `frames_to_reveal(delay)` frames on.
pub proof fn lemma_delay_after(delay: u64, frames: nat)
    ensures
        delay_after(delay, frames) == if delay >= frames * REVEAL_INTERVAL_MS {
            delay - frames * REVEAL_INTERVAL_MS
        } else {
            0
        },
        frames >= frames_to_reveal(delay) ==> delay_after(delay, frames) == 0,
    decreases frames,
{
    if frames > 0 {
        lemma_delay_after(delay, (frames - 1) as nat);
    }
}

/// Every delay that the planner hands out has run out after
/// `MAX_REVEAL_FRAMES` frames.
pub proof fn lemma_planned_delay_runs_out(delay: u64)
    requires
        delay < MAX_DELAY_MS,
    ensures
        frames_to_reveal(delay) <= MAX_REVEAL_FRAMES,
        delay_after(delay, MAX_REVEAL_FRAMES as nat) == 0,
{
    lemma_delay_after(delay, MAX_REVEAL_FRAMES as nat);
}

/// A reveal frame moves a record forward only: a pending record loses part
/// of its delay, a record that is not pending stays exactly as it is, and so
/// a revealed record is never masked again. Source, width and passthrough
/// mark never change, and a well-formed record stays well-formed when its
/// new mask is a glyph.
pub proof fn lemma_tick_moves_forward(record: CharRecord, fresh: Option<char>)
    ensures
        record.ticked(fresh).source == record.source,
        record.ticked(fresh).display_width == record.display_width,
        record.ticked(fresh).is_passthrough == record.is_passthrough,
        record.ticked(fresh).remaining_delay == if record.is_pending() {
            shortened(record.remaining_delay)
        } else {
            record.remaining_delay
        },
        record.is_pending() ==> record.ticked(fresh).remaining_delay < record.remaining_delay,
        !record.is_pending() ==> record.ticked(fresh) == record,
        !record.is_pending() ==> !record.ticked(fresh).is_pending(),
        record.well_formed() && (fresh matches Some(glyph) ==> is_glyph(glyph))
            ==> record.ticked(fresh).well_formed(),
{
}

/// A passthrough record shows its source in every phase, whatever is drawn:
/// it is the only cell that the mask and the jumble accept for it and the
/// cell of every reveal frame, and a reveal frame leaves the record as it is.
pub proof fn lemma_passthrough_shows_source(
    record: CharRecord,
    cell: Cell,
    fresh: Option<char>,
    after: CharRecord,
)
    requires
        record.is_passthrough,
    ensures
        record.shows_mask(cell) <==> cell == Cell::Plain(record.source),
        record.shows_jumble(cell) <==> cell == Cell::Plain(record.source),
        record.reveal_cell(after) == Cell::Plain(record.source),
        record.ticked(fresh) == record,
        record.mask_cost() == 0,
        record.jumble_cost() == 0,
{
}

} // verus!
