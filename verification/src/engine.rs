//! The state machine of the effect: which frame is painted next, when the
//! effect waits for a key, and when it ends.

use vstd::prelude::*;

use crate::chance::{tally, RandomSource};
use crate::config::{Color, Config};
use crate::frame::{
    all_revealed, is_jumble_frame, is_mask_frame, is_reveal_frame, jumble_frame, jumble_glyphs,
    lemma_frame_shortens_longest_delay, lemma_longest_delay, longest_delay, mask_frame,
    mask_glyphs, pending_count, reveal_frame, reveal_step_of,
};
use crate::layout::Layout;
use crate::record::{
    frames_to_reveal, lemma_frame_shortens_delay, lemma_planned_delay_runs_out, Cell, CharRecord,
};
use crate::timing::{
    AUTO_START_PAUSE_MS, JUMBLE_FRAMES, JUMBLE_INTERVAL_MS, MASK_CHAR_PAUSE_MS, MAX_DELAY_MS,
    MAX_REVEAL_FRAMES, REVEAL_INTERVAL_MS,
};

verus! {

/// The phases of the effect, in the order in which they come.
#[derive(Clone, Copy, Debug, PartialEq, Eq, Structural)]
pub enum Phase {
    /// The mask is about to be laid down.
    Masking,
    /// The mask is on the screen; the effect waits to be started.
    Awaiting,
    /// Frames of random glyphs.
    Jumbling,
    /// The characters appear as their timers run out.
    Revealing,
    /// The whole text has been shown.
    Done,
    /// The effect was cancelled while it waited to be started.
    Cancelled,
}

/// What the caller reports when it asks for the next action.
#[derive(Clone, Copy, Debug, PartialEq, Eq, Structural)]
pub enum Event {
    /// The last action was carried out and nothing else happened.
    Tick,
    /// A key was pressed.
    Key,
    /// The cancel combination was pressed.
    Cancel,
}

/// One frame to paint: move the cursor to the origin, write the cells in
/// order, flushing after every cell but a plain one, and pause as told.
#[derive(Debug)]
pub struct Frame {
    /// Row to start at.
    pub origin_row: u16,
    /// Column to start at.
    pub origin_col: u16,
    /// What to write, in order.
    pub cells: Vec<Cell>,
    /// Colour of the revealed cells.
    pub foreground: Color,
    /// Milliseconds to pause after every cell but a plain one.
    pub cell_pause_ms: u64,
    /// Milliseconds to pause after the frame.
    pub frame_pause_ms: u64,
}

/// What the caller has to do next.
#[derive(Debug)]
pub enum Action {
    /// Paint a frame.
    Paint(Frame),
    /// Block until a key is pressed, and report `Event::Key` or
    /// `Event::Cancel`.
    AwaitKey,
    /// Sleep for so many milliseconds.
    Pause(u64),
    /// The effect is over.
    Finish,
    /// The effect was cancelled: stop at once.
    Abort,
}

/// One run of the effect over one text.
#[derive(Debug)]
pub struct Effect {
    /// The records of the characters, in input order.
    pub records: Vec<CharRecord>,
    /// Row at which every frame starts.
    pub origin_row: u16,
    /// Column at which every frame starts.
    pub origin_col: u16,
    /// The settings of this run.
    pub config: Config,
    /// The phase that the next action belongs to.
    pub phase: Phase,
    /// Jumble frames that are still to be painted.
    pub jumble_frames_left: u64,
}

impl Event {
    /// What a key press means to the waiting effect: the cancel combination
    /// is the control key together with `c`; any other key starts the
    /// decryption. `key` is the character of the key, if it has one.
    pub fn from_key(control: bool, key: Option<char>) -> (event: Event)
        ensures
            event == if control && key == Some('c') {
                Event::Cancel
            } else {
                Event::Key
            },
    {
        match key {
            Some(c) => {
                if control && c == 'c' {
                    Event::Cancel
                } else {
                    Event::Key
                }
            },
            None => Event::Key,
        }
    }
}

impl Action {
    /// Whether the action is to paint a frame for `effect` with these
    /// pauses: at the effect's origin, with its foreground colour.
    pub open spec fn paints(self, effect: Effect, cell_pause_ms: u64, frame_pause_ms: u64) -> bool {
        &&& self matches Action::Paint(frame)
        &&& frame.origin_row == effect.origin_row
        &&& frame.origin_col == effect.origin_col
        &&& frame.foreground == effect.config.fg_color
        &&& frame.cell_pause_ms == cell_pause_ms
        &&& frame.frame_pause_ms == frame_pause_ms
    }

    /// The cells of the frame to paint; none if the action is not to paint.
    pub open spec fn cells(self) -> Seq<Cell> {
        match self {
            Action::Paint(frame) => frame.cells@,
            _ => Seq::empty(),
        }
    }
}

impl Effect {
    /// The position at which every frame starts, as row and column.
    pub open spec fn origin(&self) -> (u16, u16) {
        (self.origin_row, self.origin_col)
    }

    /// Whether the next action is a jumble frame, given the event.
    pub open spec fn jumbles(&self, event: Event) -> bool {
        self.phase == Phase::Jumbling || (self.phase == Phase::Awaiting
            && !self.config.autodecrypt && event == Event::Key)
    }

    /// The phase after the next action, given the event.
    pub open spec fn next_phase(&self, event: Event) -> Phase {
        match self.phase {
            Phase::Masking => Phase::Awaiting,
            Phase::Awaiting => {
                if self.config.autodecrypt {
                    Phase::Jumbling
                } else {
                    match event {
                        Event::Tick => Phase::Awaiting,
                        Event::Key => self.phase_after_jumble(),
                        Event::Cancel => Phase::Cancelled,
                    }
                }
            },
            Phase::Jumbling => self.phase_after_jumble(),
            Phase::Revealing => {
                if all_revealed(self.records@) {
                    Phase::Done
                } else {
                    Phase::Revealing
                }
            },
            Phase::Done => Phase::Done,
            Phase::Cancelled => Phase::Cancelled,
        }
    }

    /// The phase after a jumble frame: the reveal once the last jumble frame
    /// has been painted.
    pub open spec fn phase_after_jumble(&self) -> Phase {
        if self.jumble_frames_left <= 1 {
            Phase::Revealing
        } else {
            Phase::Jumbling
        }
    }

    /// The jumble frames left after the next action, given the event.
    pub open spec fn next_jumble_frames_left(&self, event: Event) -> u64 {
        if self.jumbles(event) && self.jumble_frames_left > 0 {
            (self.jumble_frames_left - 1) as u64
        } else {
            self.jumble_frames_left
        }
    }

    /// Whether `next` can be the state after the next action, given the
    /// event: phase and frame count move as told, origin and configuration
    /// stay, and the records change in a reveal frame only.
    pub open spec fn steps_to(&self, event: Event, next: Effect) -> bool {
        &&& next.phase == self.next_phase(event)
        &&& next.jumble_frames_left == self.next_jumble_frames_left(event)
        &&& next.origin() == self.origin()
        &&& next.config == self.config
        &&& if self.phase == Phase::Revealing {
            reveal_step_of(self.records@, next.records@)
        } else {
            next.records@ == self.records@
        }
    }

    /// Whether the effect has ended.
    pub open spec fn is_over(&self) -> bool {
        self.phase == Phase::Done || self.phase == Phase::Cancelled
    }

    /// Whether the effect stays where it is on this event: it waits for a
    /// key and none has come.
    pub open spec fn waits_on(&self, event: Event) -> bool {
        self.phase == Phase::Awaiting && !self.config.autodecrypt && event == Event::Tick
    }

    /// Number of reveal frames that are still to be painted, the one that
    /// shows the finished text included.
    pub open spec fn reveal_frames_left(&self) -> nat {
        frames_to_reveal(longest_delay(self.records@)) + 1
    }

    /// Number of jumble frames that are still to be painted once the jumble
    /// has begun: at least one.
    pub open spec fn jumble_frames_to_paint(&self) -> nat {
        if self.jumble_frames_left > 1 {
            self.jumble_frames_left as nat
        } else {
            1
        }
    }

    /// An upper bound on the number of actions until the effect is over,
    /// not counting the actions of waiting for a key.
    pub open spec fn actions_left(&self) -> nat {
        match self.phase {
            Phase::Masking => 2 + self.jumble_frames_to_paint() + self.reveal_frames_left(),
            Phase::Awaiting => 1 + self.jumble_frames_to_paint() + self.reveal_frames_left(),
            Phase::Jumbling => self.jumble_frames_to_paint() + self.reveal_frames_left(),
            Phase::Revealing => self.reveal_frames_left(),
            Phase::Done => 0,
            Phase::Cancelled => 0,
        }
    }

    /// The effect for a planned layout, before anything is painted.
    pub fn new(layout: Layout, config: Config) -> (effect: Effect)
        ensures
            effect.records@ == layout.records@,
            effect.origin() == (layout.origin_row, layout.origin_col),
            effect.config == config,
            effect.phase == Phase::Masking,
            effect.jumble_frames_left == JUMBLE_FRAMES,
    {
        Effect {
            records: layout.records,
            origin_row: layout.origin_row,
            origin_col: layout.origin_col,
            config,
            phase: Phase::Masking,
            jumble_frames_left: JUMBLE_FRAMES,
        }
    }

    /// Paints one jumble frame and counts it.
    fn jumble(&mut self, rng: &mut RandomSource) -> (action: Action)
        ensures
            final(self).records@ == old(self).records@,
            final(self).origin() == old(self).origin(),
            final(self).config == old(self).config,
            final(self).phase == old(self).phase_after_jumble(),
            final(self).jumble_frames_left == if old(self).jumble_frames_left > 0 {
                (old(self).jumble_frames_left - 1) as u64
            } else {
                0
            },
            action.paints(*old(self), 0, JUMBLE_INTERVAL_MS),
            is_jumble_frame(old(self).records@, action.cells()),
            final(rng).glyphs_drawn() == tally(
                old(rng).glyphs_drawn(),
                jumble_glyphs(old(self).records@),
            ),
    {
        let cells = jumble_frame(&self.records, rng);
        if self.jumble_frames_left > 1 {
            self.jumble_frames_left = self.jumble_frames_left - 1;
            self.phase = Phase::Jumbling;
        } else {
            self.jumble_frames_left = 0;
            self.phase = Phase::Revealing;
        }
        Action::Paint(
            Frame {
                origin_row: self.origin_row,
                origin_col: self.origin_col,
                cells,
                foreground: self.config.fg_color,
                cell_pause_ms: 0,
                frame_pause_ms: JUMBLE_INTERVAL_MS,
            },
        )
    }

    /// The next action of the effect, and the step to the state after it.
    ///
    /// The phases follow each other in one direction. The mask is laid down
    /// in one frame. Then the effect waits: it pauses if it starts by itself,
    /// else it asks for a key until `Event::Key` starts the jumble or
    /// `Event::Cancel` ends the effect. The jumble paints its frames, the
    /// reveal paints frames until one begins with every record revealed, and
    /// after that the effect is over. Outside the wait the event is ignored.
    pub fn advance(&mut self, event: Event, rng: &mut RandomSource) -> (action: Action)
        ensures
            old(self).steps_to(event, *final(self)),
            final(self).records@.len() == old(self).records@.len(),
            old(self).phase != Phase::Revealing ==> final(self).records@ == old(self).records@,
            forall|i: int|
                0 <= i < old(self).records@.len() && (#[trigger] old(
                    self,
                ).records@[i]).well_formed() ==> final(self).records@[i].well_formed(),
            old(self).phase == Phase::Masking ==> {
                &&& action.paints(*old(self), MASK_CHAR_PAUSE_MS, 0)
                &&& is_mask_frame(old(self).records@, action.cells())
                &&& final(rng).glyphs_drawn() == tally(
                    old(rng).glyphs_drawn(),
                    mask_glyphs(old(self).records@),
                )
            },
            old(self).phase == Phase::Awaiting && !old(self).jumbles(event) ==> {
                &&& final(rng).glyphs_drawn() == old(rng).glyphs_drawn()
                &&& if old(self).config.autodecrypt {
                    action matches Action::Pause(ms) && ms == AUTO_START_PAUSE_MS
                } else if event == Event::Cancel {
                    action is Abort
                } else {
                    action is AwaitKey
                }
            },
            old(self).jumbles(event) ==> {
                &&& action.paints(*old(self), 0, JUMBLE_INTERVAL_MS)
                &&& is_jumble_frame(old(self).records@, action.cells())
                &&& final(rng).glyphs_drawn() == tally(
                    old(rng).glyphs_drawn(),
                    jumble_glyphs(old(self).records@),
                )
            },
            old(self).phase == Phase::Revealing ==> {
                &&& action.paints(*old(self), 0, REVEAL_INTERVAL_MS)
                &&& is_reveal_frame(old(self).records@, final(self).records@, action.cells())
                &&& old(rng).glyphs_drawn() <= final(rng).glyphs_drawn() <= tally(
                    old(rng).glyphs_drawn(),
                    pending_count(old(self).records@),
                )
            },
            old(self).phase == Phase::Done ==> action is Finish && final(rng).glyphs_drawn()
                == old(rng).glyphs_drawn(),
            old(self).phase == Phase::Cancelled ==> action is Abort && final(rng).glyphs_drawn()
                == old(rng).glyphs_drawn(),
    {
        match self.phase {
            Phase::Masking => {
                let cells = mask_frame(&self.records, rng);
                self.phase = Phase::Awaiting;
                Action::Paint(
                    Frame {
                        origin_row: self.origin_row,
                        origin_col: self.origin_col,
                        cells,
                        foreground: self.config.fg_color,
                        cell_pause_ms: MASK_CHAR_PAUSE_MS,
                        frame_pause_ms: 0,
                    },
                )
            },
            Phase::Awaiting => {
                if self.config.autodecrypt {
                    self.phase = Phase::Jumbling;
                    Action::Pause(AUTO_START_PAUSE_MS)
                } else {
                    match event {
                        Event::Tick => Action::AwaitKey,
                        Event::Key => self.jumble(rng),
                        Event::Cancel => {
                            self.phase = Phase::Cancelled;
                            Action::Abort
                        },
                    }
                }
            },
            Phase::Jumbling => self.jumble(rng),
            Phase::Revealing => {
                let frame = reveal_frame(&mut self.records, rng);
                if frame.complete {
                    self.phase = Phase::Done;
                }
                Action::Paint(
                    Frame {
                        origin_row: self.origin_row,
                        origin_col: self.origin_col,
                        cells: frame.cells,
                        foreground: self.config.fg_color,
                        cell_pause_ms: 0,
                        frame_pause_ms: REVEAL_INTERVAL_MS,
                    },
                )
            },
            Phase::Done => Action::Finish,
            Phase::Cancelled => Action::Abort,
        }
    }
}

/// The place of a phase in the order of the phases.
pub open spec fn phase_rank(phase: Phase) -> nat {
    match phase {
        Phase::Masking => 0,
        Phase::Awaiting => 1,
        Phase::Jumbling => 2,
        Phase::Revealing => 3,
        Phase::Done => 4,
        Phase::Cancelled => 5,
    }
}

/// The phases follow each other in one direction: no step leads back to an
/// earlier phase, an effect that is over stays as it is, and only the wait
/// for a key can be cancelled.
pub proof fn lemma_phases_move_forward(effect: Effect, event: Event, next: Effect)
    requires
        effect.steps_to(event, next),
    ensures
        phase_rank(effect.phase) <= phase_rank(next.phase),
        effect.is_over() ==> next.phase == effect.phase && next.records@ == effect.records@,
        next.phase == Phase::Cancelled ==> effect.phase == Phase::Cancelled || (effect.phase
            == Phase::Awaiting && !effect.config.autodecrypt && event == Event::Cancel),
        next.phase == Phase::Done ==> effect.phase == Phase::Done || (effect.phase
            == Phase::Revealing && all_revealed(effect.records@)),
{
}

/// Every action but the wait for a key brings the effect nearer to its end:
/// the bound on the actions that are left goes down with each step.
pub proof fn lemma_advance_makes_progress(effect: Effect, event: Event, next: Effect)
    requires
        effect.steps_to(event, next),
        !effect.is_over(),
        !effect.waits_on(event),
    ensures
        next.actions_left() < effect.actions_left(),
{
    if effect.phase == Phase::Revealing {
        lemma_frame_shortens_longest_delay(effect.records@, next.records@);
        lemma_frame_shortens_delay(longest_delay(effect.records@));
        lemma_longest_delay(effect.records@, 0);
    }
}

/// A new effect over records whose delays are all below `MAX_DELAY_MS`, as
/// the planner hands them out, is over after at most this many actions
/// besides the wait for a key: the mask, the start, the jumble frames and
/// the reveal frames.
pub proof fn lemma_planned_effect_is_bounded(effect: Effect)
    requires
        effect.phase == Phase::Masking,
        effect.jumble_frames_left == JUMBLE_FRAMES,
        forall|i: int|
            0 <= i < effect.records@.len() ==> (#[trigger] effect.records@[i]).remaining_delay
                < MAX_DELAY_MS,
    ensures
        effect.actions_left() <= 2 + JUMBLE_FRAMES + MAX_REVEAL_FRAMES + 1,
{
    lemma_longest_delay(effect.records@, MAX_DELAY_MS);
    lemma_planned_delay_runs_out(longest_delay(effect.records@));
}

} // verus!
