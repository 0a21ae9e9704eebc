//! The quiz item and its mathematical model.

use vstd::prelude::*;

verus! {

/// One quiz item: a prompt, an optional code snippet shown below it, and the
/// answer that counts as right.
#[derive(Debug, Clone, PartialEq, Eq)]
pub struct Question {
    pub text: String,
    pub code: Option<String>,
    pub answer: bool,
}

/// A question as plain mathematical values.
pub struct QuestionView {
    pub text: Seq<char>,
    pub code: Option<Seq<char>>,
    pub answer: bool,
}

impl View for Question {
    type V = QuestionView;

    open spec fn view(&self) -> QuestionView {
        QuestionView {
            text: self.text@,
            code: match self.code {
                Some(code) => Some(code@),
                None => None,
            },
            answer: self.answer,
        }
    }
}

/// The function that takes a question to its model.
pub open spec fn view_of() -> spec_fn(Question) -> QuestionView {
    |q: Question| q@
}

/// The models of a sequence of questions, in the same order.
pub open spec fn views(questions: Seq<Question>) -> Seq<QuestionView> {
    questions.map_values(view_of())
}

impl Question {
    /// A question with the given prompt, snippet and right answer.
    pub fn new(text: String, code: Option<String>, answer: bool) -> (question: Question)
        ensures
            question.text == text,
            question.code == code,
            question.answer == answer,
    {
        Question { text, code, answer }
    }
}

} // verus!
