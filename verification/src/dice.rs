//! Fudge dice: faces, draws, and rolls of several dice.
//!
//! A die has three faces that are equally likely. A face is read off a 32-bit
//! draw by its remainder modulo four; remainder zero belongs to no face, and a
//! die whose draw lands there is drawn again.

use crate::random::advanced;
use crate::random::draw_at;
use crate::random::next_draw;
use rand::rngs::StdRng;
use vstd::prelude::*;

verus! {

/// The face shown by one Fudge die.
#[derive(Clone, Copy, Debug, PartialEq, Eq, Structural)]
pub enum Roll {
    Plus,
    Minus,
    Neutral,
}

/// How many draws in a row one die may reject before it is read as blank.
///
/// A fair draw is rejected one time in four, so this bound only matters to a
/// generator that is stuck; it is what makes every roll come to an end.
pub const REDRAW_LIMIT: u64 = 0xffff_ffff_ffff_ffff;

/// The face that a draw stands for, or `None` for a draw that is rejected.
pub open spec fn face_of_draw(draw: u32) -> Option<Roll> {
    if draw % 4 == 1 {
        Some(Roll::Plus)
    } else if draw % 4 == 2 {
        Some(Roll::Minus)
    } else if draw % 4 == 3 {
        Some(Roll::Neutral)
    } else {
        None
    }
}

/// The remainder modulo four that a face is read from.
pub open spec fn bucket_of(face: Roll) -> int {
    match face {
        Roll::Plus => 1,
        Roll::Minus => 2,
        Roll::Neutral => 3,
    }
}

/// What a face adds to the total.
pub open spec fn face_value(face: Roll) -> int {
    match face {
        Roll::Plus => 1,
        Roll::Minus => -1,
        Roll::Neutral => 0,
    }
}

/// How many dice of `rolls` show `face`.
pub open spec fn count_of(rolls: Seq<Roll>, face: Roll) -> nat
    decreases rolls.len(),
{
    if rolls.len() == 0 {
        0
    } else {
        count_of(rolls.drop_last(), face) + if rolls.last() == face {
            1nat
        } else {
            0nat
        }
    }
}

/// The total of a roll: the dice that show plus, less the dice that show minus.
pub open spec fn total_of(rolls: Seq<Roll>) -> int {
    count_of(rolls, Roll::Plus) - count_of(rolls, Roll::Minus)
}

/// How many draws of `rng` in a row, from draw number `start` on, are
/// rejected; the count stops at `budget`.
pub open spec fn rejected_run(rng: StdRng, start: int, budget: nat) -> nat
    decreases budget,
{
    if budget == 0 || face_of_draw(draw_at(rng, start)) is Some {
        0
    } else {
        1 + rejected_run(rng, start + 1, (budget - 1) as nat)
    }
}

/// How many draws a die throws away when its drawing starts at draw number
/// `start` of `rng`.
pub open spec fn redraws(rng: StdRng, start: int) -> nat {
    rejected_run(rng, start, REDRAW_LIMIT as nat)
}

/// The face of a die whose drawing starts at draw number `start` of `rng`:
/// the face of the first draw that is not rejected, or blank where
/// `REDRAW_LIMIT` draws in a row are rejected.
pub open spec fn die_face(rng: StdRng, start: int) -> Roll {
    if redraws(rng, start) < REDRAW_LIMIT {
        match face_of_draw(draw_at(rng, start + redraws(rng, start))) {
            Some(face) => face,
            None => Roll::Neutral,
        }
    } else {
        Roll::Neutral
    }
}

/// How many draws a die takes when its drawing starts at draw number `start`
/// of `rng`: the rejected ones and the one that is read.
pub open spec fn die_draws(rng: StdRng, start: int) -> nat {
    if redraws(rng, start) < REDRAW_LIMIT {
        redraws(rng, start) + 1
    } else {
        redraws(rng, start)
    }
}

/// How many draws of `rng` the first `dice` dice take between them.
pub open spec fn draws_used(rng: StdRng, dice: nat) -> nat
    decreases dice,
{
    if dice == 0 {
        0
    } else {
        let before = draws_used(rng, (dice - 1) as nat);
        before + die_draws(rng, before as int)
    }
}

/// The faces of `dice` dice rolled from `rng` one after the other: each die
/// starts drawing where the one before it stopped.
pub open spec fn faces_of(rng: StdRng, dice: nat) -> Seq<Roll>
    decreases dice,
{
    if dice == 0 {
        Seq::empty()
    } else {
        faces_of(rng, (dice - 1) as nat).push(
            die_face(rng, draws_used(rng, (dice - 1) as nat) as int),
        )
    }
}

/// The sign that a face is shown as.
pub open spec fn glyph_of(face: Roll) -> Seq<char> {
    match face {
        Roll::Plus => "🔼"@,
        Roll::Minus => "🔽"@,
        Roll::Neutral => "⏺️"@,
    }
}

/// The signs of a roll in the order of its dice, each with one space before
/// it; the first sign has its space too.
pub open spec fn glyphs_of(rolls: Seq<Roll>) -> Seq<char>
    decreases rolls.len(),
{
    if rolls.len() == 0 {
        Seq::empty()
    } else {
        glyphs_of(rolls.drop_last()) + seq![' '] + glyph_of(rolls.last())
    }
}

/// The signs, character by character: an up arrow, a down arrow, and a
/// record button followed by the selector that asks for its emoji form.
pub proof fn lemma_glyph_chars()
    ensures
        glyph_of(Roll::Plus) == seq!['\u{1F53C}'],
        glyph_of(Roll::Minus) == seq!['\u{1F53D}'],
        glyph_of(Roll::Neutral) == seq!['\u{23FA}', '\u{FE0F}'],
{
    reveal_strlit("🔼");
    reveal_strlit("🔽");
    reveal_strlit("⏺️");
}

/// Whether this many dice can be rolled at once: their number has to fit the
/// length of a vector, and their total an `i64`.
pub open spec fn rollable(dice: u64) -> bool {
    dice <= usize::MAX && dice <= i64::MAX
}

/// Every face owns exactly one of the four remainders, and the fourth
/// remainder is rejected: draws that are spread evenly over the remainders
/// show the three faces equally often.
pub proof fn lemma_faces_share_draws(draw: u32, face: Roll)
    ensures
        face_of_draw(draw) == Some(face) <==> draw % 4 == bucket_of(face),
        face_of_draw(draw) is None <==> draw % 4 == 0,
        1 <= bucket_of(face) <= 3,
{
}

/// A run of rejected draws is as long as it is told here: where `run` draws
/// in a row are rejected, and the run ends there by an accepted draw or by
/// the budget, the run counts `run`.
pub proof fn lemma_rejected_run_is(rng: StdRng, start: int, budget: nat, run: nat)
    requires
        run <= budget,
        forall|j: int| 0 <= j < run ==> face_of_draw(#[trigger] draw_at(rng, start + j)) is None,
        run == budget || face_of_draw(draw_at(rng, start + run)) is Some,
    ensures
        rejected_run(rng, start, budget) == run,
    decreases run,
{
    if run > 0 {
        assert(face_of_draw(draw_at(rng, start + 0)) is None);
        assert forall|j: int| 0 <= j < run - 1 implies face_of_draw(
            #[trigger] draw_at(rng, start + 1 + j),
        ) is None by {
            assert(face_of_draw(draw_at(rng, start + (j + 1))) is None);
        }
        lemma_rejected_run_is(rng, start + 1, (budget - 1) as nat, (run - 1) as nat);
    }
}

/// What a run of rejected draws is: it stays within its budget, every draw
/// of it is rejected, and where it ends short of the budget the draw that
/// ends it is accepted.
pub proof fn lemma_rejected_run(rng: StdRng, start: int, budget: nat)
    ensures
        rejected_run(rng, start, budget) <= budget,
        forall|j: int|
            0 <= j < rejected_run(rng, start, budget) ==> face_of_draw(
                #[trigger] draw_at(rng, start + j),
            ) is None,
        rejected_run(rng, start, budget) < budget ==> face_of_draw(
            draw_at(rng, start + rejected_run(rng, start, budget)),
        ) is Some,
    decreases budget,
{
    if !(budget == 0 || face_of_draw(draw_at(rng, start)) is Some) {
        lemma_rejected_run(rng, start + 1, (budget - 1) as nat);
        assert forall|j: int| 0 <= j < rejected_run(rng, start, budget) implies face_of_draw(
            #[trigger] draw_at(rng, start + j),
        ) is None by {
            if j > 0 {
                assert(face_of_draw(draw_at(rng, start + 1 + (j - 1))) is None);
            }
        }
    }
}

/// A die reads the first draw that is not rejected. Every draw before it is
/// thrown away and none of them is read as a face; the die is blank by
/// default only where `REDRAW_LIMIT` draws in a row are rejected.
pub proof fn lemma_die_reads_first_accepted_draw(rng: StdRng, start: int)
    ensures
        redraws(rng, start) <= REDRAW_LIMIT,
        forall|j: int|
            0 <= j < redraws(rng, start) ==> face_of_draw(#[trigger] draw_at(rng, start + j))
                is None,
        redraws(rng, start) < REDRAW_LIMIT ==> face_of_draw(
            draw_at(rng, start + redraws(rng, start)),
        ) == Some(die_face(rng, start)),
        redraws(rng, start) == REDRAW_LIMIT ==> die_face(rng, start) == Roll::Neutral,
{
    lemma_rejected_run(rng, start, REDRAW_LIMIT as nat);
}

/// A generator that is some draws on rolls what the earlier one rolls from
/// there: runs of rejected draws are the same.
pub proof fn lemma_rejected_run_advanced(
    before: StdRng,
    after: StdRng,
    count: int,
    start: int,
    budget: nat,
)
    requires
        advanced(before, after, count),
        0 <= start,
    ensures
        rejected_run(after, start, budget) == rejected_run(before, start + count, budget),
    decreases budget,
{
    assert(draw_at(after, start) == draw_at(before, start + count));
    if budget > 0 {
        lemma_rejected_run_advanced(before, after, count, start + 1, (budget - 1) as nat);
    }
}

/// A generator that is some draws on rolls its next die as the earlier one
/// rolls the die that starts there.
pub proof fn lemma_die_advanced(before: StdRng, after: StdRng, count: int)
    requires
        advanced(before, after, count),
    ensures
        die_face(after, 0) == die_face(before, count),
        die_draws(after, 0) == die_draws(before, count),
{
    lemma_rejected_run_advanced(before, after, count, 0, REDRAW_LIMIT as nat);
    let run = redraws(after, 0) as int;
    assert(draw_at(after, 0 + run) == draw_at(before, run + count));
}

/// Taking draws adds up: some draws on, and then some more.
pub proof fn lemma_advanced_twice(
    before: StdRng,
    between: StdRng,
    after: StdRng,
    first: int,
    second: int,
)
    requires
        advanced(before, between, first),
        advanced(between, after, second),
        0 <= second,
    ensures
        advanced(before, after, first + second),
{
    assert forall|k: int| 0 <= k implies #[trigger] draw_at(after, k) == draw_at(
        before,
        k + (first + second),
    ) by {
        assert(draw_at(after, k) == draw_at(between, k + second));
        assert(draw_at(between, k + second) == draw_at(before, k + second + first));
    }
}

/// A roll has one face for each die.
pub proof fn lemma_faces_of_len(rng: StdRng, dice: nat)
    ensures
        faces_of(rng, dice).len() == dice,
    decreases dice,
{
    if dice > 0 {
        lemma_faces_of_len(rng, (dice - 1) as nat);
    }
}

/// One more die changes the count of its own face by one and no other.
pub proof fn lemma_count_push(rolls: Seq<Roll>, next: Roll, face: Roll)
    ensures
        count_of(rolls.push(next), face) == count_of(rolls, face) + if next == face {
            1nat
        } else {
            0nat
        },
{
    assert(rolls.push(next).drop_last() =~= rolls);
}

/// One more die adds the value of its face to the total.
pub proof fn lemma_total_push(rolls: Seq<Roll>, next: Roll)
    ensures
        total_of(rolls.push(next)) == total_of(rolls) + face_value(next),
{
    lemma_count_push(rolls, next, Roll::Plus);
    lemma_count_push(rolls, next, Roll::Minus);
}

/// The three faces account for every die of a roll, so the total lies
/// between minus and plus the number of dice.
pub proof fn lemma_counts_partition(rolls: Seq<Roll>)
    ensures
        count_of(rolls, Roll::Plus) + count_of(rolls, Roll::Minus) + count_of(
            rolls,
            Roll::Neutral,
        ) == rolls.len(),
        -rolls.len() <= total_of(rolls) <= rolls.len(),
    decreases rolls.len(),
{
    if rolls.len() > 0 {
        lemma_counts_partition(rolls.drop_last());
    }
}

impl Roll {
    /// Reads a face off a draw; `None` says that the die is to be drawn again.
    pub fn from_draw(draw: u32) -> (face: Option<Roll>)
        ensures
            face == face_of_draw(draw),
    {
        let bucket: u32 = draw % 4;
        if bucket == 1 {
            Some(Roll::Plus)
        } else if bucket == 2 {
            Some(Roll::Minus)
        } else if bucket == 3 {
            Some(Roll::Neutral)
        } else {
            None
        }
    }

    /// What this face adds to the total.
    pub fn value(self) -> (v: i64)
        ensures
            v == face_value(self),
    {
        match self {
            Roll::Plus => 1,
            Roll::Minus => -1,
            Roll::Neutral => 0,
        }
    }

    /// The sign that this face is shown as.
    pub fn glyph(self) -> (sign: &'static str)
        ensures
            sign@ == glyph_of(self),
    {
        match self {
            Roll::Plus => "🔼",
            Roll::Minus => "🔽",
            Roll::Neutral => "⏺️",
        }
    }
}

/// Shows the faces as signs, in order, each with one space before it.
pub fn render_rolls(rolls: &Vec<Roll>) -> (signs: String)
    ensures
        signs@ == glyphs_of(rolls@),
{
    let mut signs = String::new();
    let mut i: usize = 0;
    while i < rolls.len()
        invariant
            i <= rolls@.len(),
            signs@ == glyphs_of(rolls@.take(i as int)),
        decreases rolls@.len() - i,
    {
        proof {
            reveal_strlit(" ");
            assert(rolls@.take(i + 1).drop_last() =~= rolls@.take(i as int));
        }
        signs.append(" ");
        signs.append(rolls[i].glyph());
        i = i + 1;
    }
    assert(rolls@.take(i as int) =~= rolls@);
    signs
}

/// The dice of one roll, in the order they were rolled, with their total.
#[derive(Debug)]
pub struct RollResult {
    sequence: Vec<Roll>,
    total: i64,
}

impl View for RollResult {
    type V = Seq<Roll>;

    closed spec fn view(&self) -> Seq<Roll> {
        self.sequence@
    }
}

impl RollResult {
    #[verifier::type_invariant]
    spec fn consistent(self) -> bool {
        self.total == total_of(self.sequence@)
    }

    /// The roll that shows the given faces.
    pub fn from_sequence(sequence: Vec<Roll>) -> (result: RollResult)
        requires
            sequence@.len() <= i64::MAX,
        ensures
            result@ == sequence@,
    {
        let mut total: i64 = 0;
        let mut i: usize = 0;
        while i < sequence.len()
            invariant
                i <= sequence@.len() <= i64::MAX,
                total == total_of(sequence@.take(i as int)),
            decreases sequence@.len() - i,
        {
            proof {
                let seen = sequence@.take(i as int);
                assert(sequence@.take(i + 1) =~= seen.push(sequence@[i as int]));
                lemma_total_push(seen, sequence@[i as int]);
                lemma_counts_partition(seen);
            }
            total = total + sequence[i].value();
            i = i + 1;
        }
        assert(sequence@.take(i as int) =~= sequence@);
        RollResult { sequence, total }
    }

    /// The faces, in the order they were rolled.
    pub fn sequence(&self) -> (faces: &Vec<Roll>)
        ensures
            faces@ == self@,
    {
        &self.sequence
    }

    /// The dice that show plus, less the dice that show minus.
    pub fn total(&self) -> (total: i64)
        ensures
            total == total_of(self@),
    {
        proof {
            use_type_invariant(self);
        }
        self.total
    }
}

/// Rolls one die: draws until a draw stands for a face.
///
/// The face is that of the first draw that is not rejected, and the generator
/// is left behind that draw. After `REDRAW_LIMIT` rejected draws in a row the
/// die is read as blank.
pub fn roll_die(rng: &mut StdRng) -> (face: Roll)
    ensures
        face == die_face(*old(rng), 0),
        advanced(*old(rng), *final(rng), die_draws(*old(rng), 0) as int),
{
    let mut rejected: u64 = 0;
    while rejected < REDRAW_LIMIT
        invariant
            rejected <= REDRAW_LIMIT,
            advanced(*old(rng), *rng, rejected as int),
            forall|j: int|
                0 <= j < rejected ==> face_of_draw(#[trigger] draw_at(*old(rng), 0 + j)) is None,
        decreases REDRAW_LIMIT - rejected,
    {
        let ghost before = *rng;
        let draw: u32 = next_draw(rng);
        proof {
            assert(draw_at(before, 0) == draw_at(*old(rng), 0 + rejected));
            lemma_advanced_twice(*old(rng), before, *rng, rejected as int, 1);
        }
        match Roll::from_draw(draw) {
            Some(face) => {
                proof {
                    lemma_rejected_run_is(*old(rng), 0, REDRAW_LIMIT as nat, rejected as nat);
                }
                return face;
            },
            None => {},
        }
        rejected = rejected + 1;
    }
    proof {
        lemma_rejected_run_is(*old(rng), 0, REDRAW_LIMIT as nat, rejected as nat);
    }
    Roll::Neutral
}

/// Whether this many dice can be rolled at once.
pub fn can_roll(dice: u64) -> (can: bool)
    ensures
        can == rollable(dice),
{
    dice <= usize::MAX as u64 && dice <= i64::MAX as u64
}

/// Rolls `dice` dice, one after the other, from one generator.
///
/// Each die starts drawing where the one before it stopped, and the generator
/// is left behind the last draw that was taken.
pub fn roll(rng: &mut StdRng, dice: u64) -> (result: RollResult)
    requires
        rollable(dice),
    ensures
        result@ == faces_of(*old(rng), dice as nat),
        result@.len() == dice,
        advanced(*old(rng), *final(rng), draws_used(*old(rng), dice as nat) as int),
{
    let mut sequence: Vec<Roll> = Vec::new();
    let mut rolled: u64 = 0;
    while rolled < dice
        invariant
            rolled <= dice,
            sequence@.len() == rolled,
            sequence@ == faces_of(*old(rng), rolled as nat),
            advanced(*old(rng), *rng, draws_used(*old(rng), rolled as nat) as int),
        decreases dice - rolled,
    {
        let ghost before = *rng;
        let ghost used = draws_used(*old(rng), rolled as nat) as int;
        let face = roll_die(rng);
        proof {
            lemma_die_advanced(*old(rng), before, used);
            lemma_advanced_twice(
                *old(rng),
                before,
                *rng,
                used,
                die_draws(before, 0) as int,
            );
        }
        sequence.push(face);
        rolled = rolled + 1;
    }
    RollResult::from_sequence(sequence)
}

} // verus!
