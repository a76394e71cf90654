//! The adapter for the uninterruptible power supply.
//!
//! A session with the supply's server answers a fixed set of named variables, each
//! as a text. This module says which variables are asked for and makes one sample of
//! the answers.

use vstd::prelude::*;
use crate::models::{DefaultWithTime, UpsStat};
use crate::text::{numeral_i32, parse_i32, texts};
use crate::time::Timestamp;

verus! {

/// One variable that the server answered.
#[derive(Debug, Clone, PartialEq)]
pub struct UpsVariable {
    /// The variable's name.
    pub name: String,
    /// The answer, as the server worded it.
    pub value: String,
    /// The bits of the double-precision number that the answer writes, where it
    /// writes one.
    pub number: Option<u64>,
}

/// The names of the variables that make a sample, in the order of its attributes.
pub open spec fn variable_names() -> Seq<Seq<char>> {
    seq![
        "ups.model"@,
        "ups.status"@,
        "ups.load"@,
        "input.frequency"@,
        "input.voltage"@,
        "battery.charge"@,
        "battery.voltage"@,
    ]
}

/// Lists the variables to ask the server for.
pub fn ups_variable_names() -> (names: Vec<String>)
    ensures
        texts(names@) == variable_names(),
{
    let mut names: Vec<String> = Vec::new();
    names.push(String::from_str("ups.model"));
    names.push(String::from_str("ups.status"));
    names.push(String::from_str("ups.load"));
    names.push(String::from_str("input.frequency"));
    names.push(String::from_str("input.voltage"));
    names.push(String::from_str("battery.charge"));
    names.push(String::from_str("battery.voltage"));
    assert(texts(names@) =~= variable_names());
    names
}

/// The position of the first answer to the variable called `name`, or the number
/// of answers where there is none.
pub open spec fn answer_index(answers: Seq<UpsVariable>, name: Seq<char>) -> int
    decreases answers.len(),
{
    if answers.len() == 0 {
        0
    } else if answers[0].name@ == name {
        0
    } else {
        1 + answer_index(answers.skip(1), name)
    }
}

/// The first answer to the variable called `name`.
pub open spec fn answer(answers: Seq<UpsVariable>, name: Seq<char>) -> Option<UpsVariable> {
    let i = answer_index(answers, name);
    if 0 <= i < answers.len() {
        Some(answers[i])
    } else {
        None
    }
}

/// The wording of the answer to `name`, absent where the variable was not answered.
pub open spec fn answer_text(answers: Seq<UpsVariable>, name: Seq<char>) -> Option<String> {
    match answer(answers, name) {
        Some(variable) => Some(variable.value),
        None => None,
    }
}

/// The whole number that the answer to `name` writes, absent where the variable was
/// not answered or its answer is no such number.
pub open spec fn answer_whole(answers: Seq<UpsVariable>, name: Seq<char>) -> Option<i32> {
    match answer(answers, name) {
        Some(variable) => numeral_i32(variable.value@),
        None => None,
    }
}

/// The bits of the real number that the answer to `name` writes, absent where the
/// variable was not answered or its answer is no number.
pub open spec fn answer_number(answers: Seq<UpsVariable>, name: Seq<char>) -> Option<u64> {
    match answer(answers, name) {
        Some(variable) => variable.number,
        None => None,
    }
}

/// The sample that a session yields. A session that failed as a whole yields the
/// all-absent sample; a variable that was not answered, or whose answer cannot be
/// read as its attribute's type, leaves that attribute absent.
pub open spec fn ups_sample(time: Timestamp, session: Option<Seq<UpsVariable>>) -> UpsStat {
    match session {
        None => UpsStat::absent_at(time),
        Some(answers) => UpsStat {
            time,
            model: answer_text(answers, "ups.model"@),
            status: answer_text(answers, "ups.status"@),
            load: answer_whole(answers, "ups.load"@),
            input_frequency: answer_number(answers, "input.frequency"@),
            input_voltage: answer_number(answers, "input.voltage"@),
            battery_charge: answer_whole(answers, "battery.charge"@),
            battery_voltage: answer_number(answers, "battery.voltage"@),
        },
    }
}

/// Finds the first answer to the variable called `name`.
fn find_answer<'a>(answers: &'a Vec<UpsVariable>, name: &str) -> (found: Option<&'a UpsVariable>)
    ensures
        match found {
            Some(variable) => answer(answers@, name@) == Some(*variable),
            None => answer(answers@, name@) is None,
        },
{
    let wanted = String::from_str(name);
    let mut i: usize = 0;
    assert(answers@.skip(0) == answers@);
    while i < answers.len()
        invariant
            i <= answers.len(),
            wanted@ == name@,
            answer_index(answers@, name@) == i + answer_index(answers@.skip(i as int), name@),
        decreases answers.len() - i,
    {
        assert(answers@.skip(i as int)[0] == answers@[i as int]);
        if answers[i].name == wanted {
            return Some(&answers[i]);
        }
        assert(answers@.skip(i as int).skip(1) == answers@.skip(i + 1));
        i += 1;
    }
    None
}

/// The wording of the answer to `name`.
fn text_answer(answers: &Vec<UpsVariable>, name: &str) -> (text: Option<String>)
    ensures
        text == answer_text(answers@, name@),
{
    match find_answer(answers, name) {
        Some(variable) => Some(variable.value.clone()),
        None => None,
    }
}

/// The whole number that the answer to `name` writes.
fn whole_answer(answers: &Vec<UpsVariable>, name: &str) -> (whole: Option<i32>)
    ensures
        whole == answer_whole(answers@, name@),
{
    match find_answer(answers, name) {
        Some(variable) => parse_i32(variable.value.as_str()),
        None => None,
    }
}

/// The bits of the real number that the answer to `name` writes.
fn number_answer(answers: &Vec<UpsVariable>, name: &str) -> (number: Option<u64>)
    ensures
        number == answer_number(answers@, name@),
{
    match find_answer(answers, name) {
        Some(variable) => variable.number,
        None => None,
    }
}

/// Makes the sample of one session with the supply's server: `None` for a session
/// that could not be held, else the variables that were answered.
pub fn ups_stats_entry(time: Timestamp, session: &Option<Vec<UpsVariable>>) -> (entry: UpsStat)
    ensures
        entry == ups_sample(
            time,
            match *session {
                Some(answers) => Some(answers@),
                None => None,
            },
        ),
        entry.time == time,
        session is None ==> entry.empty(),
{
    match session {
        None => UpsStat::new(time),
        Some(answers) => UpsStat {
            time,
            model: text_answer(answers, "ups.model"),
            status: text_answer(answers, "ups.status"),
            load: whole_answer(answers, "ups.load"),
            input_frequency: number_answer(answers, "input.frequency"),
            input_voltage: number_answer(answers, "input.voltage"),
            battery_charge: whole_answer(answers, "battery.charge"),
            battery_voltage: number_answer(answers, "battery.voltage"),
        },
    }
}

} // verus!
