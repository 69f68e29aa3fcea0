use ballot_bot::rank::fate_number_to_rank;
use ballot_bot::rank::rank_of;
use ballot_bot::rank::HIGHEST_RANK;
use ballot_bot::rank::LOWEST_RANK;

#[test]
fn ladder_words() {
    assert_eq!(fate_number_to_rank(-2), "Terrible");
    assert_eq!(fate_number_to_rank(-1), "Poor");
    assert_eq!(fate_number_to_rank(0), "Mediocre");
    assert_eq!(fate_number_to_rank(1), "Average");
    assert_eq!(fate_number_to_rank(2), "Fair");
    assert_eq!(fate_number_to_rank(3), "Good");
    assert_eq!(fate_number_to_rank(4), "Great");
    assert_eq!(fate_number_to_rank(5), "Superb");
    assert_eq!(fate_number_to_rank(6), "Fantastic");
    assert_eq!(fate_number_to_rank(7), "Epic");
    assert_eq!(fate_number_to_rank(8), "Legendary");
}

#[test]
fn ladder_ends() {
    assert_eq!(LOWEST_RANK, -2);
    assert_eq!(HIGHEST_RANK, 8);
    assert_eq!(fate_number_to_rank(LOWEST_RANK), "Terrible");
    assert_eq!(fate_number_to_rank(HIGHEST_RANK), "Legendary");
}

#[test]
fn just_off_the_ladder_is_a_numeral() {
    assert_eq!(fate_number_to_rank(-3), "-3");
    assert_eq!(fate_number_to_rank(9), "9");
}

#[test]
fn far_off_the_ladder_is_a_numeral() {
    assert_eq!(fate_number_to_rank(100), "100");
    assert_eq!(fate_number_to_rank(-100), "-100");
    assert_eq!(fate_number_to_rank(i64::MAX), "9223372036854775807");
    assert_eq!(fate_number_to_rank(i64::MIN), "-9223372036854775808");
}

#[test]
fn off_the_ladder_agrees_with_std() {
    for v in (-50i64..-2).chain(9..60) {
        assert_eq!(fate_number_to_rank(v), v.to_string());
    }
}

#[test]
fn label_is_the_same_on_every_call() {
    for v in -10i64..20 {
        assert_eq!(fate_number_to_rank(v), fate_number_to_rank(v));
    }
}

#[test]
fn ladder_words_are_distinct_and_not_empty() {
    let mut words: Vec<String> = Vec::new();
    for v in LOWEST_RANK..=HIGHEST_RANK {
        let word = fate_number_to_rank(v);
        assert!(!word.is_empty());
        assert!(!words.contains(&word));
        words.push(word);
    }
    assert_eq!(words.len(), 11);
}

#[test]
fn labels_are_distinct_around_the_ladder() {
    let mut labels: Vec<String> = Vec::new();
    for v in -30i64..30 {
        let label = fate_number_to_rank(v);
        assert!(!labels.contains(&label));
        labels.push(label);
    }
}

#[test]
fn wide_levels_beyond_sixty_four_bits() {
    assert_eq!(rank_of(i64::MAX as i128 + 1), "9223372036854775808");
    assert_eq!(rank_of(i64::MIN as i128 - 6), "-9223372036854775814");
    assert_eq!(rank_of(3), "Good");
    assert_eq!(rank_of(-2), "Terrible");
    assert_eq!(rank_of(9), "9");
}
