//! The text put on screen: the frame of a question and the message that
//! follows a wrong answer.

use crate::progress::{bar_text, progress_bar};
use crate::question::{Question, QuestionView};
use vstd::prelude::*;
use vstd::string::*;

verus! {

/// The frame of question `index` of `total`: the progress bar on a line of its
/// own, then the prompt; where the question has a code snippet, an empty line
/// and the snippet follow.
pub open spec fn frame_text(question: QuestionView, index: int, total: int) -> Seq<char>
    recommends
        0 <= index <= total,
        0 < total,
{
    bar_text(index, total) + seq!['\n'] + question.text + seq!['\n'] + match question.code {
        Some(code) => seq!['\n'] + code + seq!['\n'],
        None => Seq::empty(),
    }
}

/// How an answer is written out.
pub open spec fn answer_text(answer: bool) -> Seq<char> {
    if answer {
        "true"@
    } else {
        "false"@
    }
}

/// The message shown after a wrong answer: it names the right answer and the
/// one that was picked.
pub open spec fn correction_text(expected: bool, picked: bool) -> Seq<char> {
    "\nWRONG: Answer was "@ + answer_text(expected) + ", but you picked "@ + answer_text(picked)
        + "\n"@
}

/// The frame of question `index` of `total`.
pub fn frame(question: &Question, index: usize, total: usize) -> (text: String)
    requires
        index <= total,
        total > 0,
    ensures
        text@ == frame_text(question@, index as int, total as int),
{
    let mut text = progress_bar(index, total);
    text.push('\n');
    text.append(question.text.as_str());
    text.push('\n');
    match &question.code {
        Some(code) => {
            text.push('\n');
            text.append(code.as_str());
            text.push('\n');
        },
        None => {},
    }
    assert(text@ =~= frame_text(question@, index as int, total as int));
    text
}

/// How an answer is written out.
fn answer_word(answer: bool) -> (word: &'static str)
    ensures
        word@ == answer_text(answer),
{
    if answer {
        "true"
    } else {
        "false"
    }
}

/// The message shown after a wrong answer.
pub fn correction(expected: bool, picked: bool) -> (message: String)
    ensures
        message@ == correction_text(expected, picked),
{
    let mut message = String::new();
    message.append("\nWRONG: Answer was ");
    message.append(answer_word(expected));
    message.append(", but you picked ");
    message.append(answer_word(picked));
    message.append("\n");
    assert(message@ =~= correction_text(expected, picked));
    message
}

} // verus!
