//! Whole frames: what all the records show in one pass of each phase.

use vstd::prelude::*;

use crate::chance::{tally, RandomSource};
use crate::glyphs::is_glyph;
use crate::record::{
    delay_after, frames_to_reveal, lemma_delay_after, shortened, Cell, CharRecord,
};

verus! {

/// Number of glyphs drawn to lay the mask down over `records`.
pub open spec fn mask_glyphs(records: Seq<CharRecord>) -> nat
    decreases records.len(),
{
    if records.len() == 0 {
        0
    } else {
        mask_glyphs(records.drop_last()) + records.last().mask_cost()
    }
}

/// Number of glyphs drawn for one jumble frame of `records`.
pub open spec fn jumble_glyphs(records: Seq<CharRecord>) -> nat
    decreases records.len(),
{
    if records.len() == 0 {
        0
    } else {
        jumble_glyphs(records.drop_last()) + records.last().jumble_cost()
    }
}

/// Number of records that are still masked and waiting for their timer.
pub open spec fn pending_count(records: Seq<CharRecord>) -> nat
    decreases records.len(),
{
    if records.len() == 0 {
        0
    } else {
        pending_count(records.drop_last()) + if records.last().is_pending() {
            1nat
        } else {
            0nat
        }
    }
}

/// Whether no record is waiting for its timer any more.
pub open spec fn all_revealed(records: Seq<CharRecord>) -> bool {
    forall|i: int| 0 <= i < records.len() ==> !(#[trigger] records[i]).is_pending()
}

/// The delay that a record still waits for: none for a passthrough record.
pub open spec fn pending_delay(record: CharRecord) -> u64 {
    if record.is_passthrough {
        0
    } else {
        record.remaining_delay
    }
}

/// The longest delay that any of `records` still waits for.
pub open spec fn longest_delay(records: Seq<CharRecord>) -> u64
    decreases records.len(),
{
    if records.len() == 0 {
        0
    } else {
        let rest = longest_delay(records.drop_last());
        let last = pending_delay(records.last());
        if last > rest {
            last
        } else {
            rest
        }
    }
}

/// Whether `after` can be `before` one reveal frame later: every record has
/// been ticked, and a mask that changed is a glyph.
pub open spec fn reveal_step_of(before: Seq<CharRecord>, after: Seq<CharRecord>) -> bool {
    &&& after.len() == before.len()
    &&& forall|i: int|
        #![trigger before[i]]
        #![trigger after[i]]
        0 <= i < before.len() ==> {
            &&& after[i] == before[i].ticked(Some(after[i].mask))
            &&& after[i].mask == before[i].mask || is_glyph(after[i].mask)
        }
}

/// Whether `cells` is a frame that lays the mask down over `records`: one
/// cell for each record, which shows the record's source if it passes
/// through and its mask if not, a wide one with a filler glyph.
pub open spec fn is_mask_frame(records: Seq<CharRecord>, cells: Seq<Cell>) -> bool {
    &&& cells.len() == records.len()
    &&& forall|i: int|
        #![trigger records[i]]
        #![trigger cells[i]]
        0 <= i < records.len() ==> records[i].shows_mask(cells[i])
}

/// Whether `cells` is a jumble frame of `records`: one cell for each record,
/// which shows the record's source if it passes through and glyphs if not.
pub open spec fn is_jumble_frame(records: Seq<CharRecord>, cells: Seq<Cell>) -> bool {
    &&& cells.len() == records.len()
    &&& forall|i: int|
        #![trigger records[i]]
        #![trigger cells[i]]
        0 <= i < records.len() ==> records[i].shows_jumble(cells[i])
}

/// Whether `cells` is the reveal frame that takes the records from `before`
/// to `after`: one cell for each record, which shows the mask that a pending
/// record has after the frame and the source of any other record.
pub open spec fn is_reveal_frame(
    before: Seq<CharRecord>,
    after: Seq<CharRecord>,
    cells: Seq<Cell>,
) -> bool {
    &&& reveal_step_of(before, after)
    &&& cells.len() == before.len()
    &&& forall|i: int|
        #![trigger before[i]]
        #![trigger after[i]]
        #![trigger cells[i]]
        0 <= i < before.len() ==> cells[i] == before[i].reveal_cell(after[i])
}

/// One frame of the reveal phase.
#[derive(Debug)]
pub struct RevealFrame {
    /// What each record shows, in order.
    pub cells: Vec<Cell>,
    /// Whether every record was revealed already when the frame began, so
    /// that this frame shows the finished text.
    pub complete: bool,
}

/// The frame that lays the mask down: every passthrough record shows its
/// source, every other record its mask, a wide one with a filler glyph.
pub fn mask_frame(records: &Vec<CharRecord>, rng: &mut RandomSource) -> (cells: Vec<Cell>)
    ensures
        is_mask_frame(records@, cells@),
        final(rng).glyphs_drawn() == tally(old(rng).glyphs_drawn(), mask_glyphs(records@)),
{
    let mut cells: Vec<Cell> = Vec::new();
    let mut i: usize = 0;
    while i < records.len()
        invariant
            i <= records@.len(),
            cells@.len() == i,
            forall|j: int| 0 <= j < i ==> (#[trigger] records@[j]).shows_mask(cells@[j]),
            rng.glyphs_drawn() == tally(
                old(rng).glyphs_drawn(),
                mask_glyphs(records@.take(i as int)),
            ),
        decreases records@.len() - i,
    {
        assert(records@.take(i + 1).drop_last() == records@.take(i as int));
        let cell = records[i].mask_cell(rng);
        cells.push(cell);
        i = i + 1;
    }
    assert(records@.take(i as int) == records@);
    cells
}

/// One frame of the jumble phase: every passthrough record shows its
/// source, every other record glyphs drawn afresh. The records stay as they
/// are.
pub fn jumble_frame(records: &Vec<CharRecord>, rng: &mut RandomSource) -> (cells: Vec<Cell>)
    ensures
        is_jumble_frame(records@, cells@),
        final(rng).glyphs_drawn() == tally(old(rng).glyphs_drawn(), jumble_glyphs(records@)),
{
    let mut cells: Vec<Cell> = Vec::new();
    let mut i: usize = 0;
    while i < records.len()
        invariant
            i <= records@.len(),
            cells@.len() == i,
            forall|j: int| 0 <= j < i ==> (#[trigger] records@[j]).shows_jumble(cells@[j]),
            rng.glyphs_drawn() == tally(
                old(rng).glyphs_drawn(),
                jumble_glyphs(records@.take(i as int)),
            ),
        decreases records@.len() - i,
    {
        assert(records@.take(i + 1).drop_last() == records@.take(i as int));
        let cell = records[i].jumble_cell(rng);
        cells.push(cell);
        i = i + 1;
    }
    assert(records@.take(i as int) == records@);
    cells
}

/// One frame of the reveal phase. Every pending record may take a new mask
/// glyph, shows its mask and loses one frame interval of its delay; every
/// other record stays as it is and shows its source. The frame is complete if
/// no record was pending when it began.
pub fn reveal_frame(records: &mut Vec<CharRecord>, rng: &mut RandomSource) -> (frame: RevealFrame)
    ensures
        is_reveal_frame(old(records)@, final(records)@, frame.cells@),
        forall|i: int|
            0 <= i < old(records)@.len() && (#[trigger] old(records)@[i]).well_formed()
                ==> final(records)@[i].well_formed(),
        frame.complete == all_revealed(old(records)@),
        old(rng).glyphs_drawn() <= final(rng).glyphs_drawn() <= tally(
            old(rng).glyphs_drawn(),
            pending_count(old(records)@),
        ),
{
    let ghost before_all = records@;
    let mut cells: Vec<Cell> = Vec::new();
    let mut complete = true;
    let mut i: usize = 0;
    while i < records.len()
        invariant
            i <= records@.len(),
            records@.len() == before_all.len(),
            cells@.len() == i,
            forall|j: int| i <= j < records@.len() ==> records@[j] == before_all[j],
            forall|j: int|
                0 <= j < i ==> {
                    let before = #[trigger] before_all[j];
                    let after = records@[j];
                    &&& after == before.ticked(Some(after.mask))
                    &&& after.mask == before.mask || is_glyph(after.mask)
                    &&& cells@[j] == before.reveal_cell(after)
                },
            complete == all_revealed(before_all.take(i as int)),
            old(rng).glyphs_drawn() <= rng.glyphs_drawn() <= tally(
                old(rng).glyphs_drawn(),
                pending_count(before_all.take(i as int)),
            ),
        decreases records@.len() - i,
    {
        assert(before_all.take(i + 1).drop_last() == before_all.take(i as int));
        let mut record = records[i];
        if record.is_pending() {
            complete = false;
        }
        let cell = record.reveal_step(rng);
        records.set(i, record);
        cells.push(cell);
        proof {
            let shorter = before_all.take(i as int);
            let longer = before_all.take(i + 1);
            assert(longer[i as int] == before_all[i as int]);
            assert(forall|j: int| 0 <= j < i ==> shorter[j] == longer[j]);
        }
        i = i + 1;
    }
    assert(before_all.take(i as int) == before_all);
    RevealFrame { cells, complete }
}

/// The longest delay bounds the delay of every record, is zero exactly when
/// every record is revealed, and stays below any positive bound that all the
/// delays stay below.
pub proof fn lemma_longest_delay(records: Seq<CharRecord>, bound: u64)
    ensures
        forall|i: int|
            0 <= i < records.len() ==> pending_delay(#[trigger] records[i]) <= longest_delay(
                records,
            ),
        longest_delay(records) == 0 <==> all_revealed(records),
        bound > 0 && (forall|i: int|
            0 <= i < records.len() ==> pending_delay(#[trigger] records[i]) < bound)
            ==> longest_delay(records) < bound,
    decreases records.len(),
{
    if records.len() > 0 {
        let rest = records.drop_last();
        lemma_longest_delay(rest, bound);
        assert(forall|i: int| 0 <= i < rest.len() ==> rest[i] == records[i]);
        if all_revealed(records) {
            assert(!records[records.len() - 1].is_pending());
            assert(all_revealed(rest));
        }
        if longest_delay(records) == 0 {
            assert forall|i: int| 0 <= i < records.len() implies !(#[trigger] records[i])
                .is_pending() by {
                if i < rest.len() {
                    assert(!rest[i].is_pending());
                }
            }
        }
    }
}

/// One reveal frame shortens the longest delay by one frame interval.
pub proof fn lemma_frame_shortens_longest_delay(before: Seq<CharRecord>, after: Seq<CharRecord>)
    requires
        reveal_step_of(before, after),
    ensures
        longest_delay(after) == shortened(longest_delay(before)),
    decreases before.len(),
{
    if before.len() > 0 {
        let last = before.len() - 1;
        assert(after[last] == before[last].ticked(Some(after[last].mask)));
        assert(reveal_step_of(before.drop_last(), after.drop_last())) by {
            assert forall|i: int| 0 <= i < before.drop_last().len() implies {
                &&& (#[trigger] after.drop_last()[i]) == before.drop_last()[i].ticked(
                    Some(after.drop_last()[i].mask),
                )
                &&& after.drop_last()[i].mask == before.drop_last()[i].mask || is_glyph(
                    after.drop_last()[i].mask,
                )
            } by {
                assert(after[i] == before[i].ticked(Some(after[i].mask)));
            }
        }
        lemma_frame_shortens_longest_delay(before.drop_last(), after.drop_last());
    }
}

/// The reveal phase terminates. In a run of reveal frames over the same
/// records, the longest delay after any number of frames is the first one
/// shortened so many times; once the run has more states than the longest
/// delay takes frames, its last state has every record revealed.
pub proof fn lemma_reveal_terminates(run: Seq<Seq<CharRecord>>)
    requires
        run.len() > 0,
        forall|k: int| 0 <= k < run.len() - 1 ==> reveal_step_of(#[trigger] run[k], run[k + 1]),
    ensures
        longest_delay(run.last()) == delay_after(
            longest_delay(run[0]),
            (run.len() - 1) as nat,
        ),
        run.len() > frames_to_reveal(longest_delay(run[0])) ==> all_revealed(run.last()),
    decreases run.len(),
{
    if run.len() > 1 {
        let shorter = run.drop_last();
        assert forall|k: int| 0 <= k < shorter.len() - 1 implies reveal_step_of(
            #[trigger] shorter[k],
            shorter[k + 1],
        ) by {
            assert(reveal_step_of(run[k], run[k + 1]));
        }
        lemma_reveal_terminates(shorter);
        let k = run.len() - 2;
        assert(reveal_step_of(run[k], run[k + 1]));
        lemma_frame_shortens_longest_delay(run[k], run[k + 1]);
    }
    lemma_delay_after(longest_delay(run[0]), (run.len() - 1) as nat);
    lemma_longest_delay(run.last(), 0);
}

/// What a passthrough record shows does not depend on chance: in every mask
/// frame, jumble frame and reveal frame its cell is its source, written as it
/// is, and a reveal frame leaves the record as it was.
pub proof fn lemma_passthrough_cell_is_source(
    records: Seq<CharRecord>,
    after: Seq<CharRecord>,
    cells: Seq<Cell>,
    i: int,
)
    requires
        0 <= i < records.len(),
        records[i].is_passthrough,
    ensures
        is_mask_frame(records, cells) ==> cells[i] == Cell::Plain(records[i].source),
        is_jumble_frame(records, cells) ==> cells[i] == Cell::Plain(records[i].source),
        is_reveal_frame(records, after, cells) ==> cells[i] == Cell::Plain(records[i].source)
            && after[i] == records[i],
{
}

/// A reveal frame keeps the records in their order: every record keeps its
/// source, its width and its passthrough mark, no delay grows, a record that
/// was revealed stays revealed and unchanged, and a well-formed record stays
/// well-formed.
pub proof fn lemma_reveal_keeps_order(before: Seq<CharRecord>, after: Seq<CharRecord>, i: int)
    requires
        reveal_step_of(before, after),
        0 <= i < before.len(),
    ensures
        after[i].source == before[i].source,
        after[i].display_width == before[i].display_width,
        after[i].is_passthrough == before[i].is_passthrough,
        after[i].remaining_delay <= before[i].remaining_delay,
        before[i].is_pending() ==> after[i].remaining_delay < before[i].remaining_delay,
        !before[i].is_pending() ==> after[i] == before[i],
        before[i].well_formed() ==> after[i].well_formed(),
{
    assert(after[i] == before[i].ticked(Some(after[i].mask)));
}

} // verus!
