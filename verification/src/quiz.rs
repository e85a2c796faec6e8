//! The quiz data model: one question record and the per-field
//! visibility flags of the viewer.

use vstd::prelude::*;

verus! {

/// One quiz entry: a prompt, two hints and the answer.
#[derive(Clone, Debug)]
pub struct Question {
    pub question: String,
    pub hint1: String,
    pub hint2: String,
    pub answer: String,
}

/// The mathematical value of a `Question`: its four texts as
/// character sequences.
pub ghost struct QuestionView {
    pub question: Seq<char>,
    pub hint1: Seq<char>,
    pub hint2: Seq<char>,
    pub answer: Seq<char>,
}

impl View for Question {
    type V = QuestionView;

    open spec fn view(&self) -> QuestionView {
        QuestionView {
            question: self.question@,
            hint1: self.hint1@,
            hint2: self.hint2@,
            answer: self.answer@,
        }
    }
}

impl DeepView for Question {
    type V = QuestionView;

    open spec fn deep_view(&self) -> QuestionView {
        self.view()
    }
}

/// Which of the four fields of the current question are revealed.
#[derive(Clone, Copy, Debug, PartialEq, Eq, Structural)]
pub struct Show {
    pub question: bool,
    pub hint1: bool,
    pub hint2: bool,
    pub answer: bool,
}

impl Show {
    /// The state in which every field is hidden.
    pub open spec fn spec_hidden() -> Show {
        Show { question: false, hint1: false, hint2: false, answer: false }
    }

    /// Returns the all-hidden flag state.
    pub fn hidden() -> (r: Show)
        ensures
            r == Show::spec_hidden(),
    {
        Show { question: false, hint1: false, hint2: false, answer: false }
    }

    /// Flips whether the prompt is revealed; the other flags keep their value.
    pub fn toggle_question(&mut self)
        ensures
            *final(self) == (Show { question: !old(self).question, ..*old(self) }),
    {
        self.question = !self.question;
    }

    /// Flips whether the first hint is revealed; the other flags keep their value.
    pub fn toggle_hint1(&mut self)
        ensures
            *final(self) == (Show { hint1: !old(self).hint1, ..*old(self) }),
    {
        self.hint1 = !self.hint1;
    }

    /// Flips whether the second hint is revealed; the other flags keep their value.
    pub fn toggle_hint2(&mut self)
        ensures
            *final(self) == (Show { hint2: !old(self).hint2, ..*old(self) }),
    {
        self.hint2 = !self.hint2;
    }

    /// Flips whether the answer is revealed; the other flags keep their value.
    pub fn toggle_answer(&mut self)
        ensures
            *final(self) == (Show { answer: !old(self).answer, ..*old(self) }),
    {
        self.answer = !self.answer;
    }
}

impl Default for Show {
    /// A fresh flag state hides every field.
    fn default() -> (r: Show)
        ensures
            r == Show::spec_hidden(),
    {
        Show::hidden()
    }
}

} // verus!
