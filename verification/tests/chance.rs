use decrypt_effect::chance::{Odds, RandomSource};
use decrypt_effect::glyphs::in_alphabet;
use decrypt_effect::timing::{MAX_DELAY_MS, MIN_DELAY_MS};

#[test]
fn delays_lie_between_half_a_second_and_five() {
    assert_eq!(MIN_DELAY_MS, 500);
    assert_eq!(MAX_DELAY_MS, 5000);
    let mut rng = RandomSource::seeded(7);
    let mut lowest = u64::MAX;
    let mut highest = 0;
    for _ in 0..2000 {
        let ms = rng.delay_ms();
        assert!(MIN_DELAY_MS <= ms && ms < MAX_DELAY_MS);
        lowest = lowest.min(ms);
        highest = highest.max(ms);
    }
    // The draws spread over the range instead of sitting on one of its ends.
    assert!(lowest < 1000);
    assert!(highest > 4000);
    assert_eq!(rng.glyphs_drawn(), 0);
}

#[test]
fn glyphs_come_from_the_alphabet_and_are_counted() {
    let mut rng = RandomSource::seeded(11);
    assert_eq!(rng.glyphs_drawn(), 0);
    let first = rng.glyph();
    let mut varied = false;
    assert!(in_alphabet(first));
    for drawn in 1..500u64 {
        assert_eq!(rng.glyphs_drawn(), drawn);
        let glyph = rng.glyph();
        assert!(in_alphabet(glyph));
        if glyph != first {
            varied = true;
        }
    }
    assert!(varied);
    assert_eq!(rng.glyphs_drawn(), 500);
}

#[test]
fn odds_have_the_stated_denominators() {
    assert_eq!(Odds::OneInThree.denominator(), 3);
    assert_eq!(Odds::OneInTen.denominator(), 10);
}

#[test]
fn only_the_first_outcome_is_a_hit() {
    for odds in [Odds::OneInThree, Odds::OneInTen] {
        assert!(odds.is_hit(0));
        for outcome in 1..odds.denominator() {
            assert!(!odds.is_hit(outcome));
        }
    }
}

#[test]
fn rolls_stay_below_the_denominator_and_hit_at_about_their_odds() {
    let mut rng = RandomSource::seeded(3);
    let mut thirds = 0;
    let mut tenths = 0;
    let mut highest = 0;
    for _ in 0..3000 {
        let outcome = rng.roll(Odds::OneInThree);
        assert!(outcome < 3);
        if Odds::OneInThree.is_hit(outcome) {
            thirds += 1;
        }
        let outcome = rng.roll(Odds::OneInTen);
        assert!(outcome < 10);
        highest = highest.max(outcome);
        if Odds::OneInTen.is_hit(outcome) {
            tenths += 1;
        }
    }
    assert_eq!(highest, 9);
    assert!(800 < thirds && thirds < 1200, "one in three hit {thirds} times");
    assert!(200 < tenths && tenths < 400, "one in ten hit {tenths} times");
    assert_eq!(rng.glyphs_drawn(), 0);
}

#[test]
fn equal_seeds_give_equal_sequences() {
    let mut a = RandomSource::seeded(42);
    let mut b = RandomSource::seeded(42);
    for _ in 0..100 {
        assert_eq!(a.delay_ms(), b.delay_ms());
        assert_eq!(a.glyph(), b.glyph());
        assert_eq!(a.roll(Odds::OneInTen), b.roll(Odds::OneInTen));
    }
}
