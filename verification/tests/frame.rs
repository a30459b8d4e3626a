use decrypt_effect::chance::RandomSource;
use decrypt_effect::frame::{jumble_frame, mask_frame, reveal_frame};
use decrypt_effect::glyphs::in_alphabet;
use decrypt_effect::record::{Cell, CharRecord};

fn record(source: char, width: u8, passthrough: bool, delay: u64) -> CharRecord {
    CharRecord {
        source,
        mask: '#',
        display_width: width,
        is_passthrough: passthrough,
        remaining_delay: delay,
    }
}

fn sample() -> Vec<CharRecord> {
    vec![
        record('a', 1, false, 700),
        record(' ', 1, true, 0),
        record('世', 2, false, 100),
        record('\n', 0, true, 0),
        record('b', 1, false, 0),
    ]
}

#[test]
fn the_mask_frame_shows_masks_and_passthrough_sources() {
    let records = sample();
    let mut rng = RandomSource::seeded(21);
    let cells = mask_frame(&records, &mut rng);
    assert_eq!(cells.len(), 5);
    assert_eq!(cells[0], Cell::Masked('#'));
    assert_eq!(cells[1], Cell::Plain(' '));
    assert!(matches!(cells[2], Cell::MaskedWide('#', filler) if in_alphabet(filler)));
    assert_eq!(cells[3], Cell::Plain('\n'));
    // The mask hides a character whose timer has run out as well.
    assert_eq!(cells[4], Cell::Masked('#'));
    assert_eq!(rng.glyphs_drawn(), 1);
    assert_eq!(records, sample());
}

#[test]
fn the_jumble_frame_draws_every_masked_cell_afresh() {
    let records = sample();
    let mut rng = RandomSource::seeded(22);
    let mut changed = false;
    for frame in 1..=50u64 {
        let cells = jumble_frame(&records, &mut rng);
        assert_eq!(cells.len(), 5);
        assert!(matches!(cells[0], Cell::Masked(glyph) if in_alphabet(glyph)));
        assert_eq!(cells[1], Cell::Plain(' '));
        assert!(matches!(cells[2], Cell::MaskedWide(a, b) if in_alphabet(a) && in_alphabet(b)));
        assert_eq!(cells[3], Cell::Plain('\n'));
        assert!(matches!(cells[4], Cell::Masked(glyph) if in_alphabet(glyph)));
        if cells[0] != Cell::Masked('#') {
            changed = true;
        }
        assert_eq!(rng.glyphs_drawn(), 4 * frame);
    }
    assert!(changed);
    assert_eq!(records, sample());
}

#[test]
fn reveal_frames_count_the_delays_down() {
    let mut records = sample();
    let mut rng = RandomSource::seeded(23);

    let frame = reveal_frame(&mut records, &mut rng);
    assert!(!frame.complete);
    assert_eq!(frame.cells.len(), 5);
    assert_eq!(frame.cells[0], Cell::Masked(records[0].mask));
    assert_eq!(frame.cells[1], Cell::Plain(' '));
    assert_eq!(frame.cells[2], Cell::Masked(records[2].mask));
    assert_eq!(frame.cells[3], Cell::Plain('\n'));
    assert_eq!(frame.cells[4], Cell::Revealed('b'));
    let delays: Vec<u64> = records.iter().map(|r| r.remaining_delay).collect();
    assert_eq!(delays, vec![550, 0, 0, 0, 0]);

    let frame = reveal_frame(&mut records, &mut rng);
    assert!(!frame.complete);
    assert_eq!(frame.cells[2], Cell::Revealed('世'));
    let delays: Vec<u64> = records.iter().map(|r| r.remaining_delay).collect();
    assert_eq!(delays, vec![400, 0, 0, 0, 0]);

    for expected in [250, 100, 0] {
        let frame = reveal_frame(&mut records, &mut rng);
        assert!(!frame.complete);
        assert_eq!(records[0].remaining_delay, expected);
    }

    let frame = reveal_frame(&mut records, &mut rng);
    assert!(frame.complete);
    assert_eq!(
        frame.cells,
        vec![
            Cell::Revealed('a'),
            Cell::Plain(' '),
            Cell::Revealed('世'),
            Cell::Plain('\n'),
            Cell::Revealed('b'),
        ]
    );
    assert!(rng.glyphs_drawn() <= 6);
}

#[test]
fn a_reveal_frame_keeps_everything_but_mask_and_delay() {
    let mut records = sample();
    let mut rng = RandomSource::seeded(24);
    for _ in 0..10 {
        reveal_frame(&mut records, &mut rng);
        for (now, first) in records.iter().zip(sample().iter()) {
            assert_eq!(now.source, first.source);
            assert_eq!(now.display_width, first.display_width);
            assert_eq!(now.is_passthrough, first.is_passthrough);
            assert!(now.mask == first.mask || in_alphabet(now.mask));
            assert!(now.remaining_delay <= first.remaining_delay);
        }
    }
}

#[test]
fn frames_of_no_records_are_empty() {
    let mut records: Vec<CharRecord> = Vec::new();
    let mut rng = RandomSource::seeded(25);
    assert!(mask_frame(&records, &mut rng).is_empty());
    assert!(jumble_frame(&records, &mut rng).is_empty());
    let frame = reveal_frame(&mut records, &mut rng);
    assert!(frame.cells.is_empty());
    assert!(frame.complete);
    assert_eq!(rng.glyphs_drawn(), 0);
}

#[test]
fn passthrough_records_show_their_source_in_every_phase() {
    let mut records =
        vec![record(' ', 1, true, 0), record('\n', 0, true, 0), record('\t', 0, true, 0)];
    let plain = vec![Cell::Plain(' '), Cell::Plain('\n'), Cell::Plain('\t')];
    for seed in 0..50 {
        let mut rng = RandomSource::seeded(seed);
        assert_eq!(mask_frame(&records, &mut rng), plain);
        assert_eq!(jumble_frame(&records, &mut rng), plain);
        let frame = reveal_frame(&mut records, &mut rng);
        assert_eq!(frame.cells, plain);
        assert!(frame.complete);
        assert_eq!(rng.glyphs_drawn(), 0);
    }
}

#[test]
fn the_longest_planned_delay_is_revealed_within_the_bound() {
    let mut records = vec![record('a', 1, false, 4999), record('b', 1, false, 500)];
    let mut rng = RandomSource::seeded(26);
    let mut frames = 0;
    loop {
        let frame = reveal_frame(&mut records, &mut rng);
        frames += 1;
        if frame.complete {
            break;
        }
        assert!(frames <= 34);
    }
    // 34 frames bring 4999 ms down to zero; the next one shows the text.
    assert_eq!(frames, 35);
}
