use ballot_bot::dice::can_roll;
use ballot_bot::dice::render_rolls;
use ballot_bot::dice::roll;
use ballot_bot::dice::roll_die;
use ballot_bot::dice::Roll;
use ballot_bot::dice::RollResult;
use ballot_bot::dice::REDRAW_LIMIT;
use rand::rngs::StdRng;
use rand::SeedableRng;

fn count(faces: &[Roll], face: Roll) -> i64 {
    faces.iter().filter(|f| **f == face).count() as i64
}

#[test]
fn draw_of_each_remainder() {
    assert_eq!(Roll::from_draw(0), None);
    assert_eq!(Roll::from_draw(1), Some(Roll::Plus));
    assert_eq!(Roll::from_draw(2), Some(Roll::Minus));
    assert_eq!(Roll::from_draw(3), Some(Roll::Neutral));
}

#[test]
fn draw_goes_by_remainder_only() {
    assert_eq!(Roll::from_draw(4), None);
    assert_eq!(Roll::from_draw(5), Some(Roll::Plus));
    assert_eq!(Roll::from_draw(6), Some(Roll::Minus));
    assert_eq!(Roll::from_draw(7), Some(Roll::Neutral));
    assert_eq!(Roll::from_draw(u32::MAX), Some(Roll::Neutral));
    assert_eq!(Roll::from_draw(u32::MAX - 1), Some(Roll::Minus));
    assert_eq!(Roll::from_draw(u32::MAX - 2), Some(Roll::Plus));
    assert_eq!(Roll::from_draw(u32::MAX - 3), None);
}

#[test]
fn each_face_owns_a_quarter_of_the_draws() {
    let mut plus = 0;
    let mut minus = 0;
    let mut neutral = 0;
    let mut rejected = 0;
    for draw in 0u32..4000 {
        match Roll::from_draw(draw) {
            Some(Roll::Plus) => plus += 1,
            Some(Roll::Minus) => minus += 1,
            Some(Roll::Neutral) => neutral += 1,
            None => rejected += 1,
        }
    }
    assert_eq!((plus, minus, neutral, rejected), (1000, 1000, 1000, 1000));
}

#[test]
fn face_values() {
    assert_eq!(Roll::Plus.value(), 1);
    assert_eq!(Roll::Minus.value(), -1);
    assert_eq!(Roll::Neutral.value(), 0);
}

#[test]
fn face_signs() {
    assert_eq!(Roll::Plus.glyph(), "\u{1F53C}");
    assert_eq!(Roll::Minus.glyph(), "\u{1F53D}");
    assert_eq!(Roll::Neutral.glyph(), "\u{23FA}\u{FE0F}");
}

#[test]
fn signs_of_no_dice() {
    assert_eq!(render_rolls(&Vec::new()), "");
}

#[test]
fn signs_have_a_space_before_each() {
    let faces = vec![Roll::Plus, Roll::Minus, Roll::Neutral];
    assert_eq!(render_rolls(&faces), " \u{1F53C} \u{1F53D} \u{23FA}\u{FE0F}");
    assert_eq!(render_rolls(&vec![Roll::Neutral]), " \u{23FA}\u{FE0F}");
}

#[test]
fn signs_keep_the_order_of_the_dice() {
    let faces = vec![Roll::Minus, Roll::Minus, Roll::Plus, Roll::Neutral, Roll::Plus];
    assert_eq!(
        render_rolls(&faces),
        " \u{1F53D} \u{1F53D} \u{1F53C} \u{23FA}\u{FE0F} \u{1F53C}"
    );
}

#[test]
fn result_of_given_faces() {
    let result = RollResult::from_sequence(vec![Roll::Plus, Roll::Minus, Roll::Neutral]);
    assert_eq!(result.sequence(), &vec![Roll::Plus, Roll::Minus, Roll::Neutral]);
    assert_eq!(result.total(), 0);
}

#[test]
fn result_totals() {
    assert_eq!(RollResult::from_sequence(vec![]).total(), 0);
    assert_eq!(RollResult::from_sequence(vec![Roll::Plus; 6]).total(), 6);
    assert_eq!(RollResult::from_sequence(vec![Roll::Minus; 6]).total(), -6);
    assert_eq!(RollResult::from_sequence(vec![Roll::Neutral; 6]).total(), 0);
    let mixed = vec![Roll::Plus, Roll::Plus, Roll::Minus, Roll::Neutral, Roll::Plus];
    assert_eq!(RollResult::from_sequence(mixed).total(), 2);
}

#[test]
fn roll_of_no_dice() {
    let mut rng = StdRng::seed_from_u64(1);
    let result = roll(&mut rng, 0);
    assert!(result.sequence().is_empty());
    assert_eq!(result.total(), 0);
}

#[test]
fn roll_has_one_face_for_each_die() {
    let mut rng = StdRng::seed_from_u64(7);
    for dice in 0u64..40 {
        let result = roll(&mut rng, dice);
        assert_eq!(result.sequence().len() as u64, dice);
    }
}

#[test]
fn roll_total_is_plus_less_minus() {
    let mut rng = StdRng::seed_from_u64(2024);
    for dice in [1u64, 4, 6, 25, 1000] {
        let result = roll(&mut rng, dice);
        let faces = result.sequence();
        let plus = count(faces, Roll::Plus);
        let minus = count(faces, Roll::Minus);
        let neutral = count(faces, Roll::Neutral);
        assert_eq!(plus + minus + neutral, dice as i64);
        assert_eq!(result.total(), plus - minus);
    }
}

#[test]
fn roll_shows_every_face_about_equally_often() {
    let mut rng = StdRng::seed_from_u64(99);
    let result = roll(&mut rng, 30_000);
    let faces = result.sequence();
    for face in [Roll::Plus, Roll::Minus, Roll::Neutral] {
        let seen = count(faces, face);
        assert!(9_400 < seen && seen < 10_600, "{:?} came up {} times", face, seen);
    }
}

#[test]
fn roll_follows_the_generator() {
    let mut first = StdRng::seed_from_u64(5);
    let mut second = StdRng::seed_from_u64(5);
    let a = roll(&mut first, 50);
    let b = roll(&mut second, 50);
    assert_eq!(a.sequence(), b.sequence());
    assert_eq!(a.total(), b.total());
}

#[test]
fn one_die_reads_the_first_accepted_draw() {
    let mut rng = StdRng::seed_from_u64(11);
    let mut shadow = StdRng::seed_from_u64(11);
    for _ in 0..200 {
        let face = roll_die(&mut rng);
        let expected = loop {
            if let Some(face) = Roll::from_draw(rand::RngCore::next_u32(&mut shadow)) {
                break face;
            }
        };
        assert_eq!(face, expected);
    }
}

#[test]
fn redraw_limit_is_out_of_reach() {
    assert_eq!(REDRAW_LIMIT, u64::MAX);
}

#[test]
fn how_many_dice_can_be_rolled() {
    assert!(can_roll(0));
    assert!(can_roll(6));
    assert!(can_roll(1_000_000));
    assert!(!can_roll(u64::MAX));
    assert!(!can_roll(i64::MAX as u64 + 1));
    let most = (usize::MAX as u64).min(i64::MAX as u64);
    assert!(can_roll(most));
    assert!(!can_roll(most + 1));
}

/// A generator whose first draws have the given remainders modulo four.
fn generator_with_remainders(remainders: &[u32]) -> StdRng {
    for seed in 0u64..1_000_000 {
        let mut probe = StdRng::seed_from_u64(seed);
        if remainders.iter().all(|r| rand::RngCore::next_u32(&mut probe) % 4 == *r) {
            return StdRng::seed_from_u64(seed);
        }
    }
    panic!("no seed gives these draws");
}

#[test]
fn die_skips_a_rejected_draw() {
    let mut rng = generator_with_remainders(&[0, 2]);
    assert_eq!(roll_die(&mut rng), Roll::Minus);
    let mut rng = generator_with_remainders(&[0, 0, 0, 1]);
    assert_eq!(roll_die(&mut rng), Roll::Plus);
}

#[test]
fn die_reads_an_accepted_draw_at_once() {
    for (remainder, face) in [(1, Roll::Plus), (2, Roll::Minus), (3, Roll::Neutral)] {
        let mut rng = generator_with_remainders(&[remainder, 0]);
        let mut shadow = rng.clone();
        assert_eq!(roll_die(&mut rng), face);
        rand::RngCore::next_u32(&mut shadow);
        assert_eq!(rng, shadow);
    }
}

#[test]
fn roll_serves_two_dice_from_three_draws() {
    let mut rng = generator_with_remainders(&[0, 1, 1]);
    let mut shadow = rng.clone();
    let result = roll(&mut rng, 2);
    assert_eq!(result.sequence(), &vec![Roll::Plus, Roll::Plus]);
    assert_eq!(result.total(), 2);
    for _ in 0..3 {
        rand::RngCore::next_u32(&mut shadow);
    }
    assert_eq!(rng, shadow);
}
