//! The quiz as a state machine: it is told which key was pressed and says what
//! to put on screen next. Drawing and reading keys are left to the caller.

use crate::question::{views, Question, QuestionView};
use crate::render::{correction, correction_text, frame, frame_text};
use crate::score::Score;
use vstd::prelude::*;

verus! {

/// The key that stands for the answer "true": the letter `t`.
pub const TRUE_KEY: i32 = 116;

/// The answer a keypress commits: `true` for [`TRUE_KEY`], `false` for every
/// other key. No key is invalid.
pub open spec fn answer_of_key(key: i32) -> bool {
    key == TRUE_KEY
}

/// The answer a keypress commits.
pub fn key_to_answer(key: i32) -> (answer: bool)
    ensures
        answer == answer_of_key(key),
{
    key == TRUE_KEY
}

/// Where the quiz stands with the current question.
#[derive(Debug, Clone, Copy, PartialEq, Eq, Structural)]
pub enum Stage {
    /// The question is on screen; the next key answers it.
    Asking,
    /// The answer was wrong and the correction is on screen; two keys have to
    /// be pressed before the quiz moves on.
    Correcting,
    /// One of those two keys was pressed; one more moves the quiz on.
    Dismissing,
    /// Every question was answered.
    Finished,
}

/// What the caller has to do before it reads the next key.
#[derive(Debug, PartialEq, Eq)]
pub enum Action {
    /// Clear the screen and show this frame.
    Ask(String),
    /// Show this message below what is on screen.
    Explain(String),
    /// Show nothing new.
    Wait,
    /// Read no further key: leave the quiz and report the score.
    Finish,
}

/// An action as plain mathematical values.
pub enum ActionView {
    Ask(Seq<char>),
    Explain(Seq<char>),
    Wait,
    Finish,
}

impl View for Action {
    type V = ActionView;

    open spec fn view(&self) -> ActionView {
        match self {
            Action::Ask(text) => ActionView::Ask(text@),
            Action::Explain(text) => ActionView::Explain(text@),
            Action::Wait => ActionView::Wait,
            Action::Finish => ActionView::Finish,
        }
    }
}

/// The state of a quiz as plain mathematical values.
pub struct QuizView {
    /// The questions, in the order in which they are asked.
    pub questions: Seq<QuestionView>,
    /// The index of the current question; the number of questions once the
    /// quiz is finished.
    pub position: nat,
    pub stage: Stage,
    pub correct: nat,
    pub incorrect: nat,
}

impl QuizView {
    /// The state before the first keypress. A quiz without questions starts
    /// finished.
    pub open spec fn start(questions: Seq<QuestionView>) -> QuizView {
        QuizView {
            questions,
            position: 0,
            stage: if questions.len() == 0 {
                Stage::Finished
            } else {
                Stage::Asking
            },
            correct: 0,
            incorrect: 0,
        }
    }

    /// How many questions have been answered: those before the current one,
    /// and the current one too while its correction is on screen.
    pub open spec fn answered(self) -> nat {
        match self.stage {
            Stage::Correcting | Stage::Dismissing => self.position + 1,
            Stage::Asking | Stage::Finished => self.position,
        }
    }

    /// What holds of every state that a quiz goes through: the position is
    /// within the questions, the quiz is finished exactly when it is past the
    /// last of them, and the two counters add up to the number of questions
    /// answered.
    pub open spec fn wf(self) -> bool {
        &&& self.position <= self.questions.len()
        &&& self.stage is Finished <==> self.position == self.questions.len()
        &&& self.correct + self.incorrect == self.answered()
    }

    /// The state in which the next question is asked, or the finished state
    /// after the last one.
    pub open spec fn moved_on(self) -> QuizView {
        QuizView {
            position: self.position + 1,
            stage: if self.position + 1 == self.questions.len() {
                Stage::Finished
            } else {
                Stage::Asking
            },
            ..self
        }
    }

    /// The state after `key` is pressed.
    ///
    /// While a question is asked, the key answers it: a right answer counts
    /// as correct and the quiz moves on; a wrong one counts as incorrect and
    /// brings up the correction. The correction stays for two keypresses,
    /// whichever keys they are. A finished quiz ignores keys.
    pub open spec fn press(self, key: i32) -> QuizView {
        match self.stage {
            Stage::Asking => if answer_of_key(key) == self.questions[self.position as int].answer {
                QuizView { correct: self.correct + 1, ..self.moved_on() }
            } else {
                QuizView { incorrect: self.incorrect + 1, stage: Stage::Correcting, ..self }
            },
            Stage::Correcting => QuizView { stage: Stage::Dismissing, ..self },
            Stage::Dismissing => self.moved_on(),
            Stage::Finished => self,
        }
    }

    /// The state after the keys of `keys` are pressed one after the other.
    pub open spec fn press_all(self, keys: Seq<i32>) -> QuizView
        decreases keys.len(),
    {
        if keys.len() == 0 {
            self
        } else {
            self.press_all(keys.drop_last()).press(keys.last())
        }
    }

    /// What the caller has to do in this state before it reads a key.
    pub open spec fn action(self) -> ActionView {
        match self.stage {
            Stage::Asking => ActionView::Ask(
                frame_text(
                    self.questions[self.position as int],
                    self.position as int,
                    self.questions.len() as int,
                ),
            ),
            Stage::Correcting => {
                let expected = self.questions[self.position as int].answer;
                ActionView::Explain(correction_text(expected, !expected))
            },
            Stage::Dismissing => ActionView::Wait,
            Stage::Finished => ActionView::Finish,
        }
    }

    /// A measure of how far the quiz has come: three for each question left
    /// behind, and one for each key spent on the correction of the current
    /// question.
    pub open spec fn steps(self) -> nat {
        3 * self.position + match self.stage {
            Stage::Asking | Stage::Finished => 0nat,
            Stage::Correcting => 1,
            Stage::Dismissing => 2,
        }
    }
}

/// A quiz starts in a well-formed state.
pub proof fn lemma_start_wf(questions: Seq<QuestionView>)
    ensures
        QuizView::start(questions).wf(),
{
}

/// A keypress takes a well-formed state to a well-formed state.
pub proof fn lemma_press_wf(quiz: QuizView, key: i32)
    requires
        quiz.wf(),
    ensures
        quiz.press(key).wf(),
{
}

/// At every point of a quiz, whatever keys were pressed, the two counters
/// add up to the number of questions answered so far; once the quiz is
/// finished they add up to the number of questions.
pub proof fn lemma_score_counts_answers(questions: Seq<QuestionView>, keys: Seq<i32>)
    ensures
        ({
            let quiz = QuizView::start(questions).press_all(keys);
            &&& quiz.wf()
            &&& quiz.questions == questions
            &&& quiz.correct + quiz.incorrect == quiz.answered()
            &&& quiz.stage is Finished ==> quiz.correct + quiz.incorrect == questions.len()
        }),
    decreases keys.len(),
{
    if keys.len() > 0 {
        lemma_score_counts_answers(questions, keys.drop_last());
    }
}

/// The counters never go down, and a keypress adds at most one answer.
pub proof fn lemma_counters_grow(quiz: QuizView, key: i32)
    requires
        quiz.wf(),
    ensures
        quiz.correct <= quiz.press(key).correct <= quiz.correct + 1,
        quiz.incorrect <= quiz.press(key).incorrect <= quiz.incorrect + 1,
        quiz.answered() <= quiz.press(key).answered() <= quiz.answered() + 1,
{
}

/// A quiz without questions is finished from the start, with nothing
/// answered.
pub proof fn lemma_empty_quiz_is_finished()
    ensures
        QuizView::start(Seq::empty()).stage is Finished,
        QuizView::start(Seq::empty()).correct + QuizView::start(Seq::empty()).incorrect == 0,
        QuizView::start(Seq::empty()).action() == ActionView::Finish,
{
}

/// Every keypress brings an unfinished quiz nearer to its end: the measure
/// grows with each, and never beyond three for each question, so that a quiz
/// is finished after at most three keypresses for each question.
pub proof fn lemma_press_advances(quiz: QuizView, key: i32)
    requires
        quiz.wf(),
        quiz.stage !is Finished,
    ensures
        quiz.steps() < quiz.press(key).steps() <= 3 * quiz.questions.len(),
{
}

/// A quiz in progress: the questions in the order in which they are asked,
/// the place reached, and the score so far.
pub struct Quiz {
    questions: Vec<Question>,
    position: usize,
    stage: Stage,
    score: Score,
}

impl View for Quiz {
    type V = QuizView;

    closed spec fn view(&self) -> QuizView {
        QuizView {
            questions: views(self.questions@),
            position: self.position as nat,
            stage: self.stage,
            correct: self.score.correct as nat,
            incorrect: self.score.incorrect as nat,
        }
    }
}

impl Quiz {
    /// Whether the quiz is in a state that a quiz can reach.
    pub open spec fn wf(&self) -> bool {
        self@.wf()
    }

    /// A quiz over `questions`, asked in the order given.
    pub fn start(questions: Vec<Question>) -> (quiz: Quiz)
        ensures
            quiz.wf(),
            quiz@ == QuizView::start(views(questions@)),
    {
        let stage = if questions.len() == 0 {
            Stage::Finished
        } else {
            Stage::Asking
        };
        Quiz { questions, position: 0, stage, score: Score::new() }
    }

    /// Moves to the next question, or finishes after the last one.
    fn move_on(&mut self)
        requires
            old(self).stage is Asking || old(self).stage is Dismissing,
            old(self).position < old(self).questions@.len(),
        ensures
            final(self)@ == old(self)@.moved_on(),
            final(self).score == old(self).score,
    {
        let len: usize = self.questions.len();
        self.position = self.position + 1;
        self.stage = if self.position == len {
            Stage::Finished
        } else {
            Stage::Asking
        };
    }

    /// Takes the key that was pressed and says what to do before the next key
    /// is read.
    pub fn press(&mut self, key: i32) -> (action: Action)
        requires
            old(self).wf(),
        ensures
            final(self).wf(),
            final(self)@ == old(self)@.press(key),
            action@ == final(self)@.action(),
    {
        proof {
            lemma_press_wf(self@, key);
        }
        match self.stage {
            Stage::Asking => {
                let len: usize = self.questions.len();
                let right = key_to_answer(key) == self.questions[self.position].answer;
                assert(self.score.correct + self.score.incorrect < len <= u64::MAX);
                self.score.record(right);
                if right {
                    self.move_on();
                } else {
                    self.stage = Stage::Correcting;
                }
            },
            Stage::Correcting => {
                self.stage = Stage::Dismissing;
            },
            Stage::Dismissing => {
                self.move_on();
            },
            Stage::Finished => {},
        }
        self.action()
    }

    /// What to do in the present state before a key is read.
    pub fn action(&self) -> (action: Action)
        requires
            self.wf(),
        ensures
            action@ == self@.action(),
    {
        match self.stage {
            Stage::Asking => Action::Ask(
                frame(&self.questions[self.position], self.position, self.questions.len()),
            ),
            Stage::Correcting => {
                let expected = self.questions[self.position].answer;
                Action::Explain(correction(expected, !expected))
            },
            Stage::Dismissing => Action::Wait,
            Stage::Finished => Action::Finish,
        }
    }

    /// The score so far.
    pub fn score(&self) -> (score: Score)
        ensures
            score.correct == self@.correct,
            score.incorrect == self@.incorrect,
    {
        self.score
    }

    /// Where the quiz stands with the current question.
    pub fn stage(&self) -> (stage: Stage)
        ensures
            stage == self@.stage,
    {
        self.stage
    }

    /// Whether every question was answered.
    pub fn is_finished(&self) -> (finished: bool)
        ensures
            finished == (self@.stage is Finished),
    {
        match self.stage {
            Stage::Finished => true,
            _ => false,
        }
    }

    /// The index of the current question.
    pub fn position(&self) -> (position: usize)
        ensures
            position == self@.position,
    {
        self.position
    }

    /// The number of questions in the quiz.
    pub fn len(&self) -> (len: usize)
        ensures
            len == self@.questions.len(),
    {
        self.questions.len()
    }
}

} // verus!
