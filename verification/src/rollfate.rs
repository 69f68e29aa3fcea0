//! The roll command: roll Fudge dice and say in one sentence what came up.

use crate::decimal::decimal;
use crate::decimal::render_signed;
use crate::decimal::render_unsigned;
use crate::dice::can_roll;
use crate::dice::draws_used;
use crate::dice::faces_of;
use crate::dice::glyphs_of;
use crate::dice::lemma_faces_of_len;
use crate::dice::render_rolls;
use crate::dice::roll;
use crate::dice::rollable;
use crate::dice::total_of;
use crate::dice::Roll;
use crate::dice::RollResult;
use crate::options::value_as_i64;
use crate::options::CommandOption;
use crate::options::OptionValue;
use crate::random::advanced;
use crate::random::seed_from_os;
use crate::rank::rank_label;
use crate::rank::rank_of;
use crate::rank::HIGHEST_RANK;
use crate::rank::LOWEST_RANK;
use crate::text::contains_text;
use crate::text::ends_with;
use crate::text::same_text;
use rand::rngs::StdRng;
use vstd::prelude::*;

verus! {

/// How many dice are rolled when the command names no number.
pub const DEFAULT_DICE: u64 = 4;

/// The most dice that the command offers to roll.
pub const MOST_DICE: u64 = 6;

/// What the command was asked for: how many dice, and on which skill level.
#[derive(Clone, Copy, Debug, PartialEq, Eq, Structural)]
pub struct RollRequest {
    pub dice: u64,
    pub base: Option<i64>,
}

/// Why no dice were rolled.
#[derive(Clone, Copy, Debug, PartialEq, Eq, Structural)]
pub enum RollError {
    /// More dice were asked for than can be rolled at once.
    TooManyDice,
    /// The operating system had no entropy to seed the generator with.
    NoEntropy,
}

/// Which option of the command could not be read.
#[derive(Clone, Copy, Debug, PartialEq, Eq, Structural)]
pub enum OptionError {
    /// The base has no value, or one that is no whole number of 64 bits.
    Base,
    /// The number of dice has no value, or one that is no whole number, or
    /// one above what 64 bits hold.
    Dice,
}

/// One skill level that the command offers as a base, with its name.
#[derive(Debug)]
pub struct BaseChoice {
    pub name: String,
    pub value: i64,
}

/// Whether `name` is the name of an option that the command reads.
pub open spec fn is_roll_option(name: Seq<char>) -> bool {
    name == "base"@ || name == "dice"@
}

/// How many dice a value asks for. A whole number at or above zero asks for
/// that many, and one below zero for none: there is nothing to roll. What is
/// no whole number, or is above what 64 bits hold, asks for nothing that can
/// be read.
pub open spec fn dice_of_value(value: Option<OptionValue>) -> Option<u64> {
    match value {
        Some(OptionValue::Integer(n)) => if n < 0 {
            Some(0u64)
        } else if n <= u64::MAX {
            Some(n as u64)
        } else {
            None
        },
        _ => None,
    }
}

/// The request before any option is read: the usual dice, on no base.
pub open spec fn default_request() -> RollRequest {
    RollRequest { dice: DEFAULT_DICE, base: None }
}

/// The request after one more option is read. The option named `base` sets
/// the base, the one named `dice` the number of dice, and any other changes
/// nothing. An option of these two whose value cannot be read is an error.
pub open spec fn with_option(request: RollRequest, option: CommandOption) -> Result<
    RollRequest,
    OptionError,
> {
    if option.name@ == "base"@ {
        match value_as_i64(option.value) {
            Some(base) => Ok(RollRequest { dice: request.dice, base: Some(base) }),
            None => Err(OptionError::Base),
        }
    } else if option.name@ == "dice"@ {
        match dice_of_value(option.value) {
            Some(dice) => Ok(RollRequest { dice, base: request.base }),
            None => Err(OptionError::Dice),
        }
    } else {
        Ok(request)
    }
}

/// The request after the options are read in order, or the error of the
/// first option that cannot be read.
pub open spec fn with_options(request: RollRequest, options: Seq<CommandOption>) -> Result<
    RollRequest,
    OptionError,
>
    decreases options.len(),
{
    if options.len() == 0 {
        Ok(request)
    } else {
        match with_options(request, options.drop_last()) {
            Ok(earlier) => with_option(earlier, options.last()),
            Err(error) => Err(error),
        }
    }
}

/// Whether an option can be read: it is none of the two that the command
/// reads, or it has a value of the right kind.
pub open spec fn readable(option: CommandOption) -> bool {
    with_option(default_request(), option) is Ok
}

/// The sentence that reports a roll.
///
/// Without a base it gives the number of dice, their signs and the total.
/// With a base it also names the base, and gives the total as the level that
/// the base and the dice come to, by name and by number.
pub open spec fn roll_message(rolls: Seq<Roll>, base: Option<i64>) -> Seq<char> {
    match base {
        None => "You rolled "@ + decimal(rolls.len() as int) + " dice and they came up as "@
            + glyphs_of(rolls) + ", giving a total of "@ + decimal(total_of(rolls)) + "."@,
        Some(b) => "You rolled "@ + decimal(rolls.len() as int) + " dice on a base of "@
            + rank_label(b as int) + " ("@ + decimal(b as int) + ") and they came up as "@
            + glyphs_of(rolls) + ", giving a total of "@ + rank_label(b + total_of(rolls)) + " ("@
            + decimal(b + total_of(rolls)) + ")."@,
    }
}

/// How the sentence ends: with the total, as a number where there is no
/// base, and as a level by name and by number where there is one.
pub open spec fn message_ending(rolls: Seq<Roll>, base: Option<i64>) -> Seq<char> {
    match base {
        None => ", giving a total of "@ + decimal(total_of(rolls)) + "."@,
        Some(b) => ", giving a total of "@ + rank_label(b + total_of(rolls)) + " ("@ + decimal(
            b + total_of(rolls),
        ) + ")."@,
    }
}

/// How the sentence names the base: by name and by number.
pub open spec fn message_base(base: i64) -> Seq<char> {
    " dice on a base of "@ + rank_label(base as int) + " ("@ + decimal(base as int)
        + ") and they came up as "@
}

/// Every sentence ends with its total.
pub proof fn lemma_message_ends_with_total(rolls: Seq<Roll>, base: Option<i64>)
    ensures
        ends_with(roll_message(rolls, base), message_ending(rolls, base)),
{
    let message = roll_message(rolls, base);
    let ending = message_ending(rolls, base);
    let start = match base {
        None => "You rolled "@ + decimal(rolls.len() as int) + " dice and they came up as "@
            + glyphs_of(rolls),
        Some(b) => "You rolled "@ + decimal(rolls.len() as int) + " dice on a base of "@
            + rank_label(b as int) + " ("@ + decimal(b as int) + ") and they came up as "@
            + glyphs_of(rolls),
    };
    assert(message =~= start + ending);
    assert(message.subrange(message.len() - ending.len(), message.len() as int) =~= ending);
}

/// A sentence on a base names the base, right after the number of dice.
pub proof fn lemma_message_names_base(rolls: Seq<Roll>, base: i64)
    ensures
        contains_text(roll_message(rolls, Some(base)), message_base(base)),
{
    let message = roll_message(rolls, Some(base));
    let part = message_base(base);
    let before = "You rolled "@ + decimal(rolls.len() as int);
    let after = glyphs_of(rolls) + message_ending(rolls, Some(base));
    assert(message =~= before + part + after);
    let at = before.len() as int;
    assert(message.subrange(at, at + part.len()) =~= part);
}

/// Once an option cannot be read, the options after it change nothing: the
/// error of a front part of the options is the error of them all.
pub proof fn lemma_error_stays(
    request: RollRequest,
    front: Seq<CommandOption>,
    options: Seq<CommandOption>,
)
    requires
        front.len() <= options.len(),
        front == options.take(front.len() as int),
        with_options(request, front) is Err,
    ensures
        with_options(request, options) == with_options(request, front),
    decreases options.len(),
{
    if front.len() < options.len() {
        assert(options.drop_last().take(front.len() as int) =~= front);
        lemma_error_stays(request, front, options.drop_last());
    } else {
        assert(front =~= options);
    }
}

/// The options come to a request exactly when every one of them can be read.
pub proof fn lemma_request_iff_all_readable(request: RollRequest, options: Seq<CommandOption>)
    ensures
        with_options(request, options) is Ok <==> forall|i: int|
            0 <= i < options.len() ==> readable(#[trigger] options[i]),
    decreases options.len(),
{
    if options.len() > 0 {
        let front = options.drop_last();
        lemma_request_iff_all_readable(request, front);
        if with_options(request, options) is Ok {
            assert forall|i: int| 0 <= i < options.len() implies readable(
                #[trigger] options[i],
            ) by {
                if i < front.len() {
                    assert(options[i] == front[i]);
                }
            }
        } else if with_options(request, front) is Ok {
            assert(!readable(options[options.len() - 1]));
        } else {
            let i = choose|i: int| 0 <= i < front.len() && !readable(#[trigger] front[i]);
            assert(!readable(options[i]));
        }
    }
}

/// What no option sets stays as it was: without an option named `dice` the
/// number of dice is kept, and without one named `base` the base.
pub proof fn lemma_unset_is_kept(request: RollRequest, options: Seq<CommandOption>)
    requires
        with_options(request, options) is Ok,
    ensures
        (forall|i: int| 0 <= i < options.len() ==> (#[trigger] options[i]).name@ != "dice"@)
            ==> with_options(request, options)->Ok_0.dice == request.dice,
        (forall|i: int| 0 <= i < options.len() ==> (#[trigger] options[i]).name@ != "base"@)
            ==> with_options(request, options)->Ok_0.base == request.base,
    decreases options.len(),
{
    if options.len() > 0 {
        let front = options.drop_last();
        lemma_unset_is_kept(request, front);
        assert(options.last() == options[options.len() - 1]);
        assert forall|i: int| 0 <= i < front.len() implies front[i] == options[i] by {}
    }
}

/// The option that is read last settles what it names: a last option named
/// `dice` gives the number of dice, and one named `base` the base.
pub proof fn lemma_last_option_counts(request: RollRequest, options: Seq<CommandOption>)
    requires
        options.len() > 0,
        with_options(request, options) is Ok,
    ensures
        options.last().name@ == "dice"@ ==> Some(with_options(request, options)->Ok_0.dice)
            == dice_of_value(options.last().value),
        options.last().name@ == "base"@ ==> with_options(request, options)->Ok_0.base
            == value_as_i64(options.last().value),
{
    reveal_strlit("base");
    reveal_strlit("dice");
    assert("base"@[0] != "dice"@[0]);
}

/// Whether `name` is the name of an option that the command reads.
pub fn reads_option(name: &str) -> (reads: bool)
    ensures
        reads == is_roll_option(name@),
{
    same_text(name, "base") || same_text(name, "dice")
}

/// How many dice the value of an option asks for, where it can be read.
pub fn dice_of(option: &CommandOption) -> (dice: Option<u64>)
    ensures
        dice == dice_of_value(option.value),
{
    match &option.value {
        Some(OptionValue::Integer(n)) => {
            if *n < 0 {
                Some(0)
            } else if *n <= 0xffff_ffff_ffff_ffff {
                Some(*n as u64)
            } else {
                None
            }
        },
        _ => None,
    }
}

/// Reads one more option into a request.
pub fn read_option(request: RollRequest, option: &CommandOption) -> (outcome: Result<
    RollRequest,
    OptionError,
>)
    ensures
        outcome == with_option(request, *option),
{
    if same_text(option.name.as_str(), "base") {
        match option.as_i64() {
            Some(base) => Ok(RollRequest { dice: request.dice, base: Some(base) }),
            None => Err(OptionError::Base),
        }
    } else if same_text(option.name.as_str(), "dice") {
        match dice_of(option) {
            Some(dice) => Ok(RollRequest { dice, base: request.base }),
            None => Err(OptionError::Dice),
        }
    } else {
        Ok(request)
    }
}

/// Whether an option can be read.
pub fn can_read(option: &CommandOption) -> (can: bool)
    ensures
        can == readable(*option),
{
    read_option(RollRequest { dice: DEFAULT_DICE, base: None }, option).is_ok()
}

/// Reads the options of the command into a request.
///
/// Options are read in order, so of two that set the same thing the later
/// one counts; what no option sets keeps its default.
pub fn parse_roll_options(options: &Vec<CommandOption>) -> (outcome: Result<
    RollRequest,
    OptionError,
>)
    ensures
        outcome == with_options(default_request(), options@),
{
    let mut request = RollRequest { dice: DEFAULT_DICE, base: None };
    let mut i: usize = 0;
    while i < options.len()
        invariant
            i <= options@.len(),
            with_options(default_request(), options@.take(i as int)) == Ok::<
                RollRequest,
                OptionError,
            >(request),
        decreases options@.len() - i,
    {
        let option = &options[i];
        proof {
            let front = options@.take(i + 1);
            assert(front.drop_last() =~= options@.take(i as int));
            assert(front == options@.take(front.len() as int));
            if with_options(default_request(), front) is Err {
                lemma_error_stays(default_request(), front, options@);
            }
        }
        match read_option(request, option) {
            Ok(next) => {
                request = next;
            },
            Err(error) => {
                return Err(error);
            },
        }
        i = i + 1;
    }
    assert(options@.take(i as int) =~= options@);
    Ok(request)
}

/// The skill levels that the command offers as a base, lowest first, each
/// with the word it is called by.
pub fn base_choices() -> (choices: Vec<BaseChoice>)
    ensures
        choices@.len() == HIGHEST_RANK - LOWEST_RANK + 1,
        forall|k: int|
            0 <= k < choices@.len() ==> (#[trigger] choices@[k]).value == LOWEST_RANK + k
                && choices@[k].name@ == rank_label(LOWEST_RANK + k),
{
    let mut choices: Vec<BaseChoice> = Vec::new();
    let mut level: i64 = LOWEST_RANK;
    while level <= HIGHEST_RANK
        invariant
            LOWEST_RANK <= level <= HIGHEST_RANK + 1,
            choices@.len() == level - LOWEST_RANK,
            forall|k: int|
                0 <= k < choices@.len() ==> (#[trigger] choices@[k]).value == LOWEST_RANK + k
                    && choices@[k].name@ == rank_label(LOWEST_RANK + k),
        decreases HIGHEST_RANK + 1 - level,
    {
        choices.push(BaseChoice { name: rank_of(level as i128), value: level });
        level = level + 1;
    }
    choices
}

/// Says in one sentence what a roll came to, on a base or without one.
pub fn format_roll(result: &RollResult, base: Option<i64>) -> (message: String)
    ensures
        message@ == roll_message(result@, base),
{
    let count = render_unsigned(result.sequence().len() as u128);
    let signs = render_rolls(result.sequence());
    let total: i64 = result.total();
    let mut message = String::from_str("You rolled ");
    message.append(count.as_str());
    match base {
        None => {
            let sum = render_signed(total as i128);
            message.append(" dice and they came up as ");
            message.append(signs.as_str());
            message.append(", giving a total of ");
            message.append(sum.as_str());
            message.append(".");
        },
        Some(b) => {
            let level: i128 = b as i128 + total as i128;
            let base_name = rank_of(b as i128);
            let base_number = render_signed(b as i128);
            let level_name = rank_of(level);
            let level_number = render_signed(level);
            message.append(" dice on a base of ");
            message.append(base_name.as_str());
            message.append(" (");
            message.append(base_number.as_str());
            message.append(") and they came up as ");
            message.append(signs.as_str());
            message.append(", giving a total of ");
            message.append(level_name.as_str());
            message.append(" (");
            message.append(level_number.as_str());
            message.append(").");
        },
    }
    message
}

/// Rolls the dice of `request` from `rng` and reports them in one sentence.
///
/// The sentence is the report of the roll that the generator holds: the
/// faces of its first accepted draws, one for each die. The generator is left
/// behind the last draw that was taken.
pub fn rollfate_with(rng: &mut StdRng, request: &RollRequest) -> (message: String)
    requires
        rollable(request.dice),
    ensures
        message@ == roll_message(faces_of(*old(rng), request.dice as nat), request.base),
        advanced(*old(rng), *final(rng), draws_used(*old(rng), request.dice as nat) as int),
{
    let result = roll(rng, request.dice);
    format_roll(&result, request.base)
}

/// Reports a roll of the dice of `request`, from the generator in `seed`
/// where there is one.
///
/// A request for more dice than can be rolled is turned down before the seed
/// is looked at; after that a seed that is an error is the only way to fail.
/// The sentence is the report of the roll that the generator in the seed
/// holds.
pub fn rollfate_seeded(seed: Result<StdRng, rand::Error>, request: &RollRequest) -> (outcome:
    Result<String, RollError>)
    ensures
        match outcome {
            Ok(message) => {
                &&& rollable(request.dice)
                &&& seed matches Ok(generator)
                &&& message@ == roll_message(
                    faces_of(generator, request.dice as nat),
                    request.base,
                )
            },
            Err(RollError::TooManyDice) => !rollable(request.dice),
            Err(RollError::NoEntropy) => rollable(request.dice) && seed is Err,
        },
{
    if !can_roll(request.dice) {
        return Err(RollError::TooManyDice);
    }
    match seed {
        Ok(mut rng) => Ok(rollfate_with(&mut rng, request)),
        Err(_) => Err(RollError::NoEntropy),
    }
}

/// Seeds a generator of its own from the operating system, rolls the dice of
/// `request` from it and reports them in one sentence.
///
/// A request for more dice than can be rolled is turned down before the
/// system is asked. Whether the system then has entropy to give is not in the
/// hands of this function, nor is which generator it seeds: the sentence is
/// the report of the roll that some generator holds, of one face for each
/// die.
pub fn rollfate(request: &RollRequest) -> (outcome: Result<String, RollError>)
    ensures
        match outcome {
            Ok(message) => rollable(request.dice) && exists|generator: StdRng|
                message@ == roll_message(
                    #[trigger] faces_of(generator, request.dice as nat),
                    request.base,
                ) && faces_of(generator, request.dice as nat).len() == request.dice,
            Err(RollError::TooManyDice) => !rollable(request.dice),
            Err(RollError::NoEntropy) => rollable(request.dice),
        },
{
    if !can_roll(request.dice) {
        return Err(RollError::TooManyDice);
    }
    let seed = seed_from_os();
    proof {
        if seed is Ok {
            lemma_faces_of_len(seed->Ok_0, request.dice as nat);
        }
    }
    rollfate_seeded(seed, request)
}

} // verus!
