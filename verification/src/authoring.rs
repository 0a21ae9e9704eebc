//! Authoring new questions from what was typed at three prompts: the text, a
//! block of code closed by a terminator, and the answer.

use crate::question::{views, Question, QuestionView};
use crate::text::{
    blank, contains, contains_char, has_substring, is_blank, lemma_trimmed_is_bare, lowercase,
    other_than, remove_char, trim, trim_start, trimmed, whitespace, without_char,
};
use vstd::prelude::*;
use vstd::string::*;

verus! {

/// The character that closes a block of code.
pub const TERMINATOR: char = '@';

/// The code snippet that a typed block stands for: the block without its
/// terminators and without the whitespace around it; no snippet where
/// nothing is left.
pub open spec fn snippet_of(block: Seq<char>) -> Option<Seq<char>> {
    let body = trimmed(without_char(block, TERMINATOR));
    if body.len() == 0 {
        None
    } else {
        Some(body)
    }
}

/// Whether a reply, already in lowercase, says that the answer is true: it
/// does when `true` occurs anywhere in it.
pub open spec fn affirms(lowered_reply: Seq<char>) -> bool {
    has_substring(lowered_reply, "true"@)
}

/// The question made of what was typed, the reply taken in lowercase. A blank
/// text makes no question: it ends authoring.
pub open spec fn authored(text: Seq<char>, block: Seq<char>, lowered_reply: Seq<char>) -> Option<
    QuestionView,
> {
    if blank(text) {
        None
    } else {
        Some(QuestionView { text, code: snippet_of(block), answer: affirms(lowered_reply) })
    }
}

/// A snippet is never empty, neither begins nor ends with whitespace, and
/// holds no terminator.
pub proof fn lemma_snippet_is_bare(block: Seq<char>)
    ensures
        snippet_of(block) matches Some(snippet) ==> {
            &&& snippet.len() > 0
            &&& !whitespace(snippet.first())
            &&& !whitespace(snippet.last())
            &&& !snippet.contains(TERMINATOR)
        },
{
    let kept = without_char(block, TERMINATOR);
    lemma_trimmed_is_bare(kept);
    let snippet = trimmed(kept);
    if snippet.len() > 0 && snippet.contains(TERMINATOR) {
        let from: int = kept.len() - trim_start(kept).len();
        let i = choose|i: int| 0 <= i < snippet.len() && snippet[i] == TERMINATOR;
        assert(kept[from + i] == TERMINATOR);
        block.lemma_filter_pred(other_than(TERMINATOR), from + i);
    }
}

/// A question that was authored has a text that is not blank, and so not
/// empty.
pub proof fn lemma_authored_has_text(text: Seq<char>, block: Seq<char>, lowered_reply: Seq<char>)
    ensures
        authored(text, block, lowered_reply) matches Some(question) ==> {
            &&& question.text == text
            &&& !blank(question.text)
            &&& question.text.len() > 0
        },
{
}

/// Whether the text typed at the first prompt ends authoring: it does when it
/// is empty or all whitespace.
pub fn ends_authoring(text: &str) -> (ends: bool)
    ensures
        ends == blank(text@),
{
    is_blank(text)
}

/// Whether the lines typed so far hold the terminator, so that no further
/// line of code is to be read.
pub fn block_complete(block: &str) -> (complete: bool)
    ensures
        complete == block@.contains(TERMINATOR),
{
    contains_char(block, TERMINATOR)
}

/// The code snippet that a typed block stands for.
pub fn code_of_block(block: &str) -> (code: Option<String>)
    ensures
        match code {
            Some(snippet) => snippet_of(block@) == Some(snippet@),
            None => snippet_of(block@) is None,
        },
{
    let body = trim(remove_char(block, TERMINATOR).as_str());
    if body.as_str().is_empty() {
        None
    } else {
        Some(body)
    }
}

/// Whether a reply, already in lowercase, says that the answer is true.
pub fn says_true(lowered_reply: &str) -> (answer: bool)
    ensures
        answer == affirms(lowered_reply@),
{
    contains(lowered_reply, "true")
}

/// The answer that a typed reply stands for, whatever its case: true if it
/// holds `true`, false for anything else.
pub fn answer_of_reply(reply: &str) -> (answer: bool)
    ensures
        answer == affirms(lowercase(reply@)),
{
    says_true(reply.to_lowercase().as_str())
}

/// The question made of what was typed at the three prompts; `None` where the
/// text is blank.
pub fn author_question(text: String, block: &str, reply: &str) -> (question: Option<Question>)
    ensures
        match question {
            Some(q) => authored(text@, block@, lowercase(reply@)) == Some(q@),
            None => authored(text@, block@, lowercase(reply@)) is None,
        },
{
    if ends_authoring(text.as_str()) {
        None
    } else {
        let code = code_of_block(block);
        let answer = answer_of_reply(reply);
        Some(Question { text, code, answer })
    }
}

/// What the collector of new questions waits for.
#[derive(Debug, Clone, Copy, PartialEq, Eq, Structural)]
pub enum Awaiting {
    /// The text of the next question; a blank one ends authoring.
    Text,
    /// The first line of the block of code.
    Code,
    /// A further line of the block of code: no terminator has come yet.
    MoreCode,
    /// The answer.
    Answer,
    /// Nothing: authoring has ended.
    Nothing,
}

/// The state of the collector as plain mathematical values.
pub struct CollectorView {
    /// The questions held so far: those it started with, then those authored.
    pub questions: Seq<QuestionView>,
    pub awaiting: Awaiting,
    /// The text of the question being authored.
    pub text: Seq<char>,
    /// The lines of code typed so far for the question being authored.
    pub block: Seq<char>,
}

impl CollectorView {
    /// The state in which the text of the next question is awaited.
    pub open spec fn ready(questions: Seq<QuestionView>) -> CollectorView {
        CollectorView {
            questions,
            awaiting: Awaiting::Text,
            text: Seq::empty(),
            block: Seq::empty(),
        }
    }

    /// What holds of every state that the collector goes through: while a
    /// question is being authored its text is not blank, and the lines of
    /// code typed so far hold a terminator exactly when the answer is awaited.
    pub open spec fn wf(self) -> bool {
        match self.awaiting {
            Awaiting::Text | Awaiting::Nothing => self.text.len() == 0 && self.block.len() == 0,
            Awaiting::Code => !blank(self.text) && self.block.len() == 0,
            Awaiting::MoreCode => !blank(self.text) && !self.block.contains(TERMINATOR),
            Awaiting::Answer => !blank(self.text) && self.block.contains(TERMINATOR),
        }
    }

    /// The state after `input` has been typed; `lowered` is `input` in
    /// lowercase.
    ///
    /// A blank text ends authoring; any other text opens a question. Lines of
    /// code add up until one of them brings a terminator. The answer completes
    /// the question, which joins the others, and the next text is awaited.
    /// Once authoring has ended, input is ignored.
    pub open spec fn fed(self, input: Seq<char>, lowered: Seq<char>) -> CollectorView {
        match self.awaiting {
            Awaiting::Text => if blank(input) {
                CollectorView { awaiting: Awaiting::Nothing, ..self }
            } else {
                CollectorView { awaiting: Awaiting::Code, text: input, ..self }
            },
            Awaiting::Code | Awaiting::MoreCode => {
                let block = self.block + input;
                CollectorView {
                    awaiting: if block.contains(TERMINATOR) {
                        Awaiting::Answer
                    } else {
                        Awaiting::MoreCode
                    },
                    block,
                    ..self
                }
            },
            Awaiting::Answer => match authored(self.text, self.block, lowered) {
                Some(question) => CollectorView::ready(self.questions.push(question)),
                None => CollectorView::ready(self.questions),
            },
            Awaiting::Nothing => self,
        }
    }

    /// Whether the questions are to be written out once the next input has
    /// been taken: they are after each answer, which completes a question.
    pub open spec fn saves(self) -> bool {
        self.awaiting is Answer
    }
}

/// Input takes a well-formed state of the collector to a well-formed state.
pub proof fn lemma_fed_wf(collector: CollectorView, input: Seq<char>, lowered: Seq<char>)
    requires
        collector.wf(),
    ensures
        collector.fed(input, lowered).wf(),
{
    if collector.awaiting is Code {
        assert(collector.block + input =~= input);
    }
}

/// Input never takes a question away nor changes one: either the questions
/// stay as they are, or exactly one is added after them, and that happens
/// exactly when the questions are to be written out. The added question is
/// the one authored from the text, the block and the answer that were typed.
pub proof fn lemma_fed_grows_by_one(collector: CollectorView, input: Seq<char>, lowered: Seq<char>)
    requires
        collector.wf(),
    ensures
        !collector.saves() ==> collector.fed(input, lowered).questions == collector.questions,
        collector.saves() ==> authored(collector.text, collector.block, lowered) is Some
            && collector.fed(input, lowered).questions == collector.questions.push(
            authored(collector.text, collector.block, lowered).unwrap(),
        ),
{
}

/// The collector of new questions as a state machine: it is handed what was
/// typed, line by line, and says what to read next and when to write the
/// questions out. Reading and writing are left to the caller.
pub struct Collector {
    questions: Vec<Question>,
    awaiting: Awaiting,
    text: String,
    block: String,
}

impl View for Collector {
    type V = CollectorView;

    closed spec fn view(&self) -> CollectorView {
        CollectorView {
            questions: views(self.questions@),
            awaiting: self.awaiting,
            text: self.text@,
            block: self.block@,
        }
    }
}

impl Collector {
    /// Whether the collector is in a state that it can reach.
    pub open spec fn wf(&self) -> bool {
        self@.wf()
    }

    /// A collector that adds to `questions` and awaits the text of the first
    /// new question.
    pub fn start(questions: Vec<Question>) -> (collector: Collector)
        ensures
            collector.wf(),
            collector@ == CollectorView::ready(views(questions@)),
    {
        Collector { questions, awaiting: Awaiting::Text, text: String::new(), block: String::new() }
    }

    /// What the collector waits for.
    pub fn awaiting(&self) -> (awaiting: Awaiting)
        ensures
            awaiting == self@.awaiting,
    {
        self.awaiting
    }

    /// The questions held so far.
    pub fn questions(&self) -> (questions: &Vec<Question>)
        ensures
            views(questions@) == self@.questions,
    {
        &self.questions
    }

    /// Takes what was typed and says whether the questions are now to be
    /// written out. A text or an answer comes without its line ending; a line
    /// of code comes as it was typed, line ending included.
    pub fn feed(&mut self, input: &str) -> (save: bool)
        requires
            old(self).wf(),
        ensures
            final(self).wf(),
            final(self)@ == old(self)@.fed(input@, lowercase(input@)),
            save == old(self)@.saves(),
    {
        proof {
            lemma_fed_wf(self@, input@, lowercase(input@));
        }
        match self.awaiting {
            Awaiting::Text => {
                if ends_authoring(input) {
                    self.awaiting = Awaiting::Nothing;
                } else {
                    self.text = input.to_owned();
                    self.awaiting = Awaiting::Code;
                }
                false
            },
            Awaiting::Code | Awaiting::MoreCode => {
                self.block.append(input);
                self.awaiting = if block_complete(self.block.as_str()) {
                    Awaiting::Answer
                } else {
                    Awaiting::MoreCode
                };
                false
            },
            Awaiting::Answer => {
                let mut text = String::new();
                let mut block = String::new();
                core::mem::swap(&mut self.text, &mut text);
                core::mem::swap(&mut self.block, &mut block);
                match author_question(text, block.as_str(), input) {
                    Some(question) => {
                        self.questions.push(question);
                        assert(views(self.questions@) =~= views(old(self).questions@).push(
                            question@,
                        ));
                    },
                    None => {},
                }
                self.awaiting = Awaiting::Text;
                true
            },
            Awaiting::Nothing => false,
        }
    }
}

} // verus!
