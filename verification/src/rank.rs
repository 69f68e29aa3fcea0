//! The ladder of ranks: the words that stand for skill levels.
//!
//! The ladder has a word for each level from `LOWEST_RANK` to `HIGHEST_RANK`.
//! A level off the ladder is shown as its own numeral.

use crate::decimal::decimal;
use crate::decimal::decimal_nat;
use crate::decimal::digit_char;
use crate::decimal::lemma_decimal_injective;
use crate::decimal::lemma_decimal_nat_shape;
use crate::decimal::render_signed;
use vstd::prelude::*;

verus! {

/// The lowest level that has a word.
pub const LOWEST_RANK: i64 = -2;

/// The highest level that has a word.
pub const HIGHEST_RANK: i64 = 8;

/// Whether `level` has a word on the ladder.
pub open spec fn on_ladder(level: int) -> bool {
    LOWEST_RANK <= level <= HIGHEST_RANK
}

/// What `level` is called: its word on the ladder, or its numeral off it.
pub open spec fn rank_label(level: int) -> Seq<char> {
    if level == -2 {
        "Terrible"@
    } else if level == -1 {
        "Poor"@
    } else if level == 0 {
        "Mediocre"@
    } else if level == 1 {
        "Average"@
    } else if level == 2 {
        "Fair"@
    } else if level == 3 {
        "Good"@
    } else if level == 4 {
        "Great"@
    } else if level == 5 {
        "Superb"@
    } else if level == 6 {
        "Fantastic"@
    } else if level == 7 {
        "Epic"@
    } else if level == 8 {
        "Legendary"@
    } else {
        decimal(level)
    }
}

/// Makes the words of the ladder known letter by letter.
proof fn reveal_ladder()
    ensures
        "Terrible"@ == seq!['T', 'e', 'r', 'r', 'i', 'b', 'l', 'e'],
        "Poor"@ == seq!['P', 'o', 'o', 'r'],
        "Mediocre"@ == seq!['M', 'e', 'd', 'i', 'o', 'c', 'r', 'e'],
        "Average"@ == seq!['A', 'v', 'e', 'r', 'a', 'g', 'e'],
        "Fair"@ == seq!['F', 'a', 'i', 'r'],
        "Good"@ == seq!['G', 'o', 'o', 'd'],
        "Great"@ == seq!['G', 'r', 'e', 'a', 't'],
        "Superb"@ == seq!['S', 'u', 'p', 'e', 'r', 'b'],
        "Fantastic"@ == seq!['F', 'a', 'n', 't', 'a', 's', 't', 'i', 'c'],
        "Epic"@ == seq!['E', 'p', 'i', 'c'],
        "Legendary"@ == seq!['L', 'e', 'g', 'e', 'n', 'd', 'a', 'r', 'y'],
{
    reveal_strlit("Terrible");
    reveal_strlit("Poor");
    reveal_strlit("Mediocre");
    reveal_strlit("Average");
    reveal_strlit("Fair");
    reveal_strlit("Good");
    reveal_strlit("Great");
    reveal_strlit("Superb");
    reveal_strlit("Fantastic");
    reveal_strlit("Epic");
    reveal_strlit("Legendary");
}

/// Off the ladder a level is called by its numeral.
pub proof fn lemma_rank_label_off_ladder(level: int)
    requires
        !on_ladder(level),
    ensures
        rank_label(level) == decimal(level),
{
}

/// Every level is called something: no label is empty.
pub proof fn lemma_rank_label_nonempty(level: int)
    ensures
        rank_label(level).len() > 0,
{
    reveal_ladder();
    if !on_ladder(level) {
        if level >= 0 {
            lemma_decimal_nat_shape(level as nat);
        }
    }
}

/// A word of the ladder starts with a capital letter, a numeral with a digit
/// or with `-`.
proof fn lemma_rank_label_head(level: int)
    ensures
        rank_label(level).len() > 0,
        on_ladder(level) <==> 'A' <= rank_label(level)[0] <= 'Z',
{
    reveal_ladder();
    if !on_ladder(level) {
        if level >= 0 {
            lemma_decimal_nat_shape(level as nat);
            let c = decimal_nat(level as nat)[0];
            let d = choose|d: int| 0 <= d < 10 && c == #[trigger] digit_char(d);
            assert('0' <= c <= '9');
        }
    }
}

/// No two levels of the ladder share a word.
pub proof fn lemma_ladder_words_distinct(a: int, b: int)
    requires
        on_ladder(a),
        on_ladder(b),
        a != b,
    ensures
        rank_label(a) != rank_label(b),
{
    reveal_ladder();
    let x = rank_label(a);
    let y = rank_label(b);
    if x.len() == y.len() {
        assert(x[0] != y[0] || x[1] != y[1]);
    }
}

/// No two levels, on the ladder or off it, share a label.
pub proof fn lemma_rank_label_injective(a: int, b: int)
    requires
        rank_label(a) == rank_label(b),
    ensures
        a == b,
{
    lemma_rank_label_head(a);
    lemma_rank_label_head(b);
    if on_ladder(a) {
        if a != b {
            lemma_ladder_words_distinct(a, b);
        }
    } else {
        lemma_decimal_injective(a, b);
    }
}

/// What `level` is called: its word on the ladder, or its numeral off it.
pub fn rank_of(level: i128) -> (label: String)
    ensures
        label@ == rank_label(level as int),
{
    match level {
        -2 => String::from_str("Terrible"),
        -1 => String::from_str("Poor"),
        0 => String::from_str("Mediocre"),
        1 => String::from_str("Average"),
        2 => String::from_str("Fair"),
        3 => String::from_str("Good"),
        4 => String::from_str("Great"),
        5 => String::from_str("Superb"),
        6 => String::from_str("Fantastic"),
        7 => String::from_str("Epic"),
        8 => String::from_str("Legendary"),
        x => render_signed(x),
    }
}

/// What the skill level `num` is called: its word on the ladder, or its
/// numeral off it.
pub fn fate_number_to_rank(num: i64) -> (label: String)
    ensures
        label@ == rank_label(num as int),
{
    rank_of(num as i128)
}

} // verus!
