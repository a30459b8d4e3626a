//! A "decryption reveal" text effect for terminals: the text is first shown as
//! random mask glyphs, jumbled for a moment, and then revealed character by
//! character on randomized timers.
//!
//! The crate holds the effect's logic and leaves the terminal to the caller.
//!
//! * [`layout`] plans the effect: it turns the text into one record for each
//!   character that fits on the terminal and fixes the origin at which every
//!   frame starts.
//! * [`record`] holds the per-character record and what a record shows in
//!   each phase; [`frame`] does the same for all the records at once.
//! * [`engine`] is the state machine. The caller asks it for the next action
//!   (paint this frame, wait for a key, pause, stop), carries the action out
//!   and reports what happened, until the effect is over.
//! * [`chance`] is the seeded source of delays, refresh rolls and mask
//!   glyphs, [`glyphs`] the alphabet of the mask, [`metrics`] the width and
//!   the class of a character, [`timing`] the fixed pacing, and [`config`]
//!   the settings of a run.
//!
//! Everything that is drawn at random comes from a [`chance::RandomSource`]
//! that the caller passes in, so a run can be repeated from its seed. Only
//! the delays and the glyphs are drawn: which characters are accepted and in
//! which order they stand never depends on chance.

pub mod chance;
pub mod config;
pub mod engine;
pub mod frame;
pub mod glyphs;
pub mod layout;
pub mod metrics;
pub mod record;
pub mod timing;
