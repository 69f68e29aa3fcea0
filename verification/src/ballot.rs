//! Ballots: the form that asks for the options of a new poll.

use crate::decimal::decimal;
use crate::decimal::lemma_decimal_injective;
use crate::decimal::render_unsigned;
use crate::options::value_as_text;
use crate::options::value_as_u64;
use crate::options::CommandOption;
use vstd::prelude::*;

verus! {

/// The ways of voting that a ballot can be held by.
#[derive(Clone, Copy, Debug, PartialEq, Eq, Structural)]
pub enum VotingTypeEmoji {
    FPTP,
    PREF,
    RANK,
    SCORE,
}

/// The fewest characters that an option of a poll may have.
pub const OPTION_MIN_LENGTH: u64 = 2;

/// The most characters that an option of a poll may have.
pub const OPTION_MAX_LENGTH: u64 = 100;

/// Where among the options of the command the question stands.
pub const QUESTION_AT: usize = 0;

/// Where among the options of the command the number of options stands.
pub const COUNT_AT: usize = 2;

/// What a new ballot was asked for: its question and how many options it has.
#[derive(Debug)]
pub struct BallotRequest {
    pub question: String,
    pub options: u64,
}

/// Why a request for a ballot came to no form.
#[derive(Clone, Copy, Debug, PartialEq, Eq, Structural)]
pub enum BallotError {
    /// The number of options is missing, or no whole number of 64 bits at or
    /// above zero.
    Count,
    /// The question is missing, or no text.
    Question,
    /// There are more options than a form can hold fields.
    TooManyOptions,
}

/// The form that asks for the options of a poll: its title and its fields.
#[derive(Debug)]
pub struct BallotForm {
    pub title: String,
    pub fields: Vec<BallotField>,
}

/// One text field of the form: the key it is sent back under, and what it is
/// headed with.
#[derive(Debug)]
pub struct BallotField {
    pub custom_id: String,
    pub label: String,
}

/// The key of the field at `index`; the first field is at zero.
pub open spec fn field_id(index: nat) -> Seq<char> {
    "option_"@ + decimal(index as int)
}

/// The heading of the field at `index`: headings count from one.
pub open spec fn field_label(index: nat) -> Seq<char> {
    "Option "@ + decimal(index as int + 1)
}

/// The number of options that the command names, where it can be read.
pub open spec fn count_of_options(options: Seq<CommandOption>) -> Option<u64> {
    if COUNT_AT < options.len() {
        value_as_u64(options[COUNT_AT as int].value)
    } else {
        None
    }
}

/// The question that the command names, where it can be read.
pub open spec fn question_of_options(options: Seq<CommandOption>) -> Option<Seq<char>> {
    if QUESTION_AT < options.len() {
        value_as_text(options[QUESTION_AT as int].value)
    } else {
        None
    }
}

/// No two fields of a form share a key.
pub proof fn lemma_field_ids_distinct(i: nat, j: nat)
    requires
        i != j,
    ensures
        field_id(i) != field_id(j),
{
    let prefix = "option_"@;
    if field_id(i) == field_id(j) {
        assert(decimal(i as int) =~= field_id(i).subrange(
            prefix.len() as int,
            field_id(i).len() as int,
        ));
        assert(decimal(j as int) =~= field_id(j).subrange(
            prefix.len() as int,
            field_id(j).len() as int,
        ));
        lemma_decimal_injective(i as int, j as int);
    }
}

/// The field at `index` of a form.
pub fn ballot_field(index: u64) -> (field: BallotField)
    ensures
        field.custom_id@ == field_id(index as nat),
        field.label@ == field_label(index as nat),
{
    let mut custom_id = String::from_str("option_");
    custom_id.append(render_unsigned(index as u128).as_str());
    let mut label = String::from_str("Option ");
    label.append(render_unsigned(index as u128 + 1).as_str());
    BallotField { custom_id, label }
}

/// The fields of a form for a poll of `count` options, in order.
pub fn ballot_fields(count: u64) -> (fields: Vec<BallotField>)
    requires
        count <= usize::MAX,
    ensures
        fields@.len() == count,
        forall|i: int|
            0 <= i < count ==> (#[trigger] fields@[i]).custom_id@ == field_id(i as nat)
                && fields@[i].label@ == field_label(i as nat),
{
    let mut fields: Vec<BallotField> = Vec::new();
    let mut index: u64 = 0;
    while index < count
        invariant
            index <= count,
            fields@.len() == index,
            forall|i: int|
                0 <= i < index ==> (#[trigger] fields@[i]).custom_id@ == field_id(i as nat)
                    && fields@[i].label@ == field_label(i as nat),
        decreases count - index,
    {
        fields.push(ballot_field(index));
        index = index + 1;
    }
    fields
}

/// Reads the options of the command that opens a new ballot. This never
/// fails for the number being too large.
///
/// The number of options is looked at first, so where neither it nor the
/// question can be read the error names the number.
pub fn parse_ballot_options(options: &Vec<CommandOption>) -> (outcome: Result<
    BallotRequest,
    BallotError,
>)
    ensures
        match outcome {
            Ok(request) => count_of_options(options@) == Some(request.options)
                && question_of_options(options@) == Some(request.question@),
            Err(BallotError::Count) => count_of_options(options@) is None,
            Err(BallotError::Question) => count_of_options(options@) is Some
                && question_of_options(options@) is None,
            Err(BallotError::TooManyOptions) => false,
        },
{
    if options.len() <= COUNT_AT {
        return Err(BallotError::Count);
    }
    let count: u64 = match options[COUNT_AT].as_u64() {
        Some(count) => count,
        None => {
            return Err(BallotError::Count);
        },
    };
    match options[QUESTION_AT].as_text() {
        Some(text) => Ok(BallotRequest { question: String::from_str(text), options: count }),
        None => Err(BallotError::Question),
    }
}

/// Reads the options of the command that opens a new ballot and lays out the
/// form that asks for the options of the poll: the question is its title,
/// and it has one field for each option.
///
/// What cannot be read is reported first, the number before the question;
/// only then is the number held against what a form can hold.
pub fn ballot(options: &Vec<CommandOption>) -> (outcome: Result<BallotForm, BallotError>)
    ensures
        match outcome {
            Ok(form) => {
                &&& count_of_options(options@) == Some(form.fields@.len() as u64)
                &&& form.fields@.len() <= usize::MAX
                &&& question_of_options(options@) == Some(form.title@)
                &&& forall|i: int|
                    0 <= i < form.fields@.len() ==> (#[trigger] form.fields@[i]).custom_id@
                        == field_id(i as nat) && form.fields@[i].label@ == field_label(i as nat)
            },
            Err(BallotError::Count) => count_of_options(options@) is None,
            Err(BallotError::Question) => count_of_options(options@) is Some
                && question_of_options(options@) is None,
            Err(BallotError::TooManyOptions) => {
                &&& question_of_options(options@) is Some
                &&& count_of_options(options@) matches Some(count)
                &&& count > usize::MAX
            },
        },
{
    match parse_ballot_options(options) {
        Ok(request) => {
            if request.options > usize::MAX as u64 {
                Err(BallotError::TooManyOptions)
            } else {
                Ok(BallotForm { title: request.question, fields: ballot_fields(request.options) })
            }
        },
        Err(error) => Err(error),
    }
}

} // verus!
