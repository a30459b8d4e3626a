use decrypt_effect::chance::RandomSource;
use decrypt_effect::config::{Color, Config};
use decrypt_effect::engine::{Action, Effect, Event, Frame, Phase};
use decrypt_effect::glyphs::in_alphabet;
use decrypt_effect::layout::{plan_layout, Cursor, Terminal};
use decrypt_effect::record::Cell;
use decrypt_effect::timing::{
    AUTO_START_PAUSE_MS, JUMBLE_FRAMES, JUMBLE_INTERVAL_MS, MASK_CHAR_PAUSE_MS, MAX_REVEAL_FRAMES,
    REVEAL_INTERVAL_MS,
};

fn settings(autodecrypt: bool, mask_blank: bool) -> Config {
    Config { autodecrypt, mask_blank, bg_color: Color::Black, fg_color: Color::Green }
}

fn effect_for(text: &str, config: Config, rng: &mut RandomSource) -> Effect {
    let term = Terminal { cols: 80, rows: 24 };
    let layout = plan_layout(text, term, Cursor { row: 0, col: 0 }, config, rng);
    Effect::new(layout, config)
}

fn painted(action: Action) -> Frame {
    match action {
        Action::Paint(frame) => frame,
        other => panic!("expected a frame, got {other:?}"),
    }
}

#[test]
fn the_pacing_is_fixed() {
    assert_eq!(MASK_CHAR_PAUSE_MS, 4);
    assert_eq!(AUTO_START_PAUSE_MS, 1000);
    assert_eq!(JUMBLE_INTERVAL_MS, 35);
    assert_eq!(JUMBLE_FRAMES, 57);
    assert_eq!(REVEAL_INTERVAL_MS, 150);
    assert_eq!(MAX_REVEAL_FRAMES, 34);
}

#[test]
fn control_c_cancels_and_any_other_key_starts() {
    assert_eq!(Event::from_key(true, Some('c')), Event::Cancel);
    assert_eq!(Event::from_key(false, Some('c')), Event::Key);
    assert_eq!(Event::from_key(true, Some('C')), Event::Key);
    assert_eq!(Event::from_key(true, Some('x')), Event::Key);
    assert_eq!(Event::from_key(true, None), Event::Key);
    assert_eq!(Event::from_key(false, None), Event::Key);
    assert_eq!(Event::from_key(false, Some(' ')), Event::Key);
}

#[test]
fn a_new_effect_is_about_to_lay_the_mask() {
    let config = settings(true, false);
    let mut rng = RandomSource::seeded(30);
    let effect = effect_for("hi there", config, &mut rng);
    assert_eq!(effect.phase, Phase::Masking);
    assert_eq!(effect.jumble_frames_left, 57);
    assert_eq!(effect.config, config);
    assert_eq!(effect.records.len(), 8);
    assert_eq!((effect.origin_row, effect.origin_col), (0, 0));
}

#[test]
fn two_letters_are_masked_jumbled_and_revealed() {
    let config = settings(false, true);
    let mut rng = RandomSource::seeded(31);
    let mut effect = effect_for("AB", config, &mut rng);
    assert_eq!(effect.records.len(), 2);
    assert!(effect.records.iter().all(|record| !record.is_passthrough));
    assert!(effect.records.iter().all(|record| record.display_width == 1));

    // The mask: two glyphs of the alphabet, the masks of the two records.
    let masks: Vec<char> = effect.records.iter().map(|record| record.mask).collect();
    let frame = painted(effect.advance(Event::Tick, &mut rng));
    assert_eq!(frame.cells, vec![Cell::Masked(masks[0]), Cell::Masked(masks[1])]);
    assert!(masks.iter().all(|&glyph| in_alphabet(glyph)));
    assert_eq!((frame.origin_row, frame.origin_col), (0, 0));
    assert_eq!((frame.cell_pause_ms, frame.frame_pause_ms), (4, 0));
    assert_eq!(frame.foreground, Color::Green);
    assert_eq!(effect.phase, Phase::Awaiting);

    // The wait for a key.
    assert!(matches!(effect.advance(Event::Tick, &mut rng), Action::AwaitKey));
    assert_eq!(effect.phase, Phase::Awaiting);

    // The jumble: 57 frames of fresh glyphs.
    let mut event = Event::Key;
    for left in (0..57u64).rev() {
        assert_eq!(effect.jumble_frames_left, left + 1);
        let frame = painted(effect.advance(event, &mut rng));
        event = Event::Tick;
        assert_eq!(frame.cells.len(), 2);
        for cell in &frame.cells {
            assert!(matches!(cell, Cell::Masked(glyph) if in_alphabet(*glyph)));
        }
        assert_eq!((frame.cell_pause_ms, frame.frame_pause_ms), (0, 35));
        assert_eq!(effect.jumble_frames_left, left);
        assert_eq!(effect.phase, if left == 0 { Phase::Revealing } else { Phase::Jumbling });
    }

    // The reveal: masks until the timers run out, then the text.
    let mut frames = 0;
    let last = loop {
        let before: Vec<u64> = effect.records.iter().map(|record| record.remaining_delay).collect();
        let frame = painted(effect.advance(Event::Tick, &mut rng));
        frames += 1;
        assert!(frames <= 35);
        assert_eq!((frame.cell_pause_ms, frame.frame_pause_ms), (0, 150));
        for (index, cell) in frame.cells.iter().enumerate() {
            if before[index] > 0 {
                assert_eq!(*cell, Cell::Masked(effect.records[index].mask));
                let left = effect.records[index].remaining_delay;
                assert_eq!(left, before[index].saturating_sub(150));
            } else {
                assert_eq!(*cell, Cell::Revealed(effect.records[index].source));
            }
        }
        if effect.phase == Phase::Done {
            break frame;
        }
        assert_eq!(effect.phase, Phase::Revealing);
    };
    assert_eq!(last.cells, vec![Cell::Revealed('A'), Cell::Revealed('B')]);
    assert_eq!(last.foreground, Color::Green);

    // Nothing is painted after that.
    for event in [Event::Tick, Event::Key, Event::Cancel] {
        assert!(matches!(effect.advance(event, &mut rng), Action::Finish));
        assert_eq!(effect.phase, Phase::Done);
    }
}

#[test]
fn autodecrypt_pauses_instead_of_waiting_for_a_key() {
    let config = settings(true, true);
    for event in [Event::Tick, Event::Key, Event::Cancel] {
        let mut rng = RandomSource::seeded(32);
        let mut effect = effect_for("AB", config, &mut rng);
        painted(effect.advance(Event::Tick, &mut rng));
        assert_eq!(effect.phase, Phase::Awaiting);
        assert!(matches!(effect.advance(event, &mut rng), Action::Pause(1000)));
        assert_eq!(effect.phase, Phase::Jumbling);
        assert_eq!(effect.jumble_frames_left, 57);
        painted(effect.advance(Event::Tick, &mut rng));
        assert_eq!(effect.jumble_frames_left, 56);
    }
}

#[test]
fn cancelling_the_wait_ends_the_effect() {
    let config = settings(false, true);
    let mut rng = RandomSource::seeded(33);
    let mut effect = effect_for("AB", config, &mut rng);
    painted(effect.advance(Event::Tick, &mut rng));
    assert!(matches!(effect.advance(Event::Tick, &mut rng), Action::AwaitKey));
    assert!(matches!(effect.advance(Event::Tick, &mut rng), Action::AwaitKey));
    let drawn = rng.glyphs_drawn();
    assert!(matches!(effect.advance(Event::Cancel, &mut rng), Action::Abort));
    assert_eq!(effect.phase, Phase::Cancelled);
    for event in [Event::Tick, Event::Key, Event::Cancel] {
        assert!(matches!(effect.advance(event, &mut rng), Action::Abort));
        assert_eq!(effect.phase, Phase::Cancelled);
    }
    assert_eq!(rng.glyphs_drawn(), drawn);
}

#[test]
fn cancel_is_ignored_outside_the_wait() {
    let config = settings(false, true);
    let mut rng = RandomSource::seeded(34);
    let mut effect = effect_for("AB", config, &mut rng);
    // While the mask is laid down.
    painted(effect.advance(Event::Cancel, &mut rng));
    assert_eq!(effect.phase, Phase::Awaiting);
    painted(effect.advance(Event::Key, &mut rng));
    // During the jumble and the reveal.
    let mut actions = 0;
    while effect.phase != Phase::Done {
        painted(effect.advance(Event::Cancel, &mut rng));
        actions += 1;
        assert!(actions <= 56 + 35);
    }
    assert!(matches!(effect.advance(Event::Cancel, &mut rng), Action::Finish));
}

#[test]
fn the_effect_ends_within_its_bound() {
    let text = "The quick brown fox\njumps over the lazy dog.\n世界\n";
    for seed in 0..20 {
        for autodecrypt in [false, true] {
            let config = settings(autodecrypt, seed % 2 == 0);
            let mut rng = RandomSource::seeded(seed);
            let mut effect = effect_for(text, config, &mut rng);
            let mut actions = 0;
            let mut event = Event::Tick;
            loop {
                match effect.advance(event, &mut rng) {
                    Action::Finish => break,
                    Action::AwaitKey => event = Event::Key,
                    Action::Abort => panic!("nobody cancelled"),
                    Action::Paint(_) | Action::Pause(_) => {
                        actions += 1;
                        event = Event::Tick;
                    }
                }
                assert!(actions <= 2 + 57 + 34 + 1);
            }
            assert_eq!(effect.phase, Phase::Done);
            assert!(effect.records.iter().all(|record| record.remaining_delay == 0));
            let shown: String = effect.records.iter().map(|record| record.source).collect();
            assert_eq!(shown, text);
        }
    }
}

#[test]
fn an_empty_text_runs_through_all_phases() {
    let config = settings(true, false);
    let mut rng = RandomSource::seeded(35);
    let mut effect = effect_for("", config, &mut rng);
    assert!(painted(effect.advance(Event::Tick, &mut rng)).cells.is_empty());
    assert!(matches!(effect.advance(Event::Tick, &mut rng), Action::Pause(1000)));
    for _ in 0..57 {
        assert_eq!(effect.phase, Phase::Jumbling);
        assert!(painted(effect.advance(Event::Tick, &mut rng)).cells.is_empty());
    }
    assert_eq!(effect.phase, Phase::Revealing);
    assert!(painted(effect.advance(Event::Tick, &mut rng)).cells.is_empty());
    assert_eq!(effect.phase, Phase::Done);
    assert_eq!(rng.glyphs_drawn(), 0);
}

#[test]
fn wide_characters_get_a_filler_while_masked_and_jumbled() {
    let config = settings(true, false);
    let mut rng = RandomSource::seeded(36);
    let mut effect = effect_for("世 a", config, &mut rng);
    let masks: Vec<char> = effect.records.iter().map(|record| record.mask).collect();
    let frame = painted(effect.advance(Event::Tick, &mut rng));
    match frame.cells[0] {
        Cell::MaskedWide(glyph, filler) => {
            assert_eq!(glyph, masks[0]);
            assert!(in_alphabet(filler));
        }
        other => panic!("a wide character showed {other:?}"),
    }
    assert_eq!(frame.cells[1], Cell::Plain(' '));
    assert_eq!(frame.cells[2], Cell::Masked(masks[2]));
    effect.advance(Event::Tick, &mut rng);
    let frame = painted(effect.advance(Event::Tick, &mut rng));
    assert!(matches!(frame.cells[0], Cell::MaskedWide(a, b) if in_alphabet(a) && in_alphabet(b)));
    assert_eq!(frame.cells[1], Cell::Plain(' '));
    assert!(matches!(frame.cells[2], Cell::Masked(glyph) if in_alphabet(glyph)));
}
