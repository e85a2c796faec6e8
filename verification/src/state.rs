//! The viewer's state and every transition a redraw can apply to it:
//! taking delivered file contents over, stepping between questions,
//! revealing fields and adjusting the display scale.

use vstd::prelude::*;
use vstd::utf8::decode_utf8;
use vstd::utf8::valid_utf8;
use crate::parse::parse_quiz;
use crate::parse::spec_parse_quiz;
use crate::quiz::Question;
use crate::quiz::QuestionView;
use crate::quiz::Show;

verus! {

/// The lowest value the display scale can be stepped down to, in tenths
/// of the scale factor.
pub const SCALE_FLOOR_TENTHS: u32 = 1;

/// The display scale a fresh state starts with, in tenths of the scale
/// factor.
pub const DEFAULT_SCALE_TENTHS: u32 = 40;

/// The mathematical value of the viewer's state.
pub ghost struct MyAppView {
    /// The display scale, in tenths of the scale factor.
    pub scale_tenths: u32,
    /// The loaded quiz, if any.
    pub questions: Option<Seq<QuestionView>>,
    /// The index of the current question; the quiz length itself is
    /// tolerated and means "past the end".
    pub question_nr: nat,
    /// The index as of the last redraw, kept to notice navigation.
    pub prev_question_nr: nat,
    /// Which fields of the current question are revealed.
    pub show: Show,
}

impl MyAppView {
    /// The number of questions of the loaded quiz; zero while none is
    /// loaded.
    pub open spec fn quiz_len(self) -> nat {
        match self.questions {
            Some(qs) => qs.len(),
            None => 0,
        }
    }

    /// Every state the library hands out keeps the index within
    /// `[0, quiz length]` and the scale at or above the floor.
    pub open spec fn wf(self) -> bool {
        self.question_nr <= self.quiz_len() && self.scale_tenths >= SCALE_FLOOR_TENTHS
    }

    /// The record the index points at, if it points at one.
    pub open spec fn current(self) -> Option<QuestionView> {
        if self.questions is Some && self.question_nr < self.quiz_len() {
            Some(self.questions.unwrap()[self.question_nr as int])
        } else {
            None
        }
    }

    /// The prompt text a redraw shows: the current question's prompt when
    /// one is selected and revealed, and nothing otherwise.
    pub open spec fn displayed_question(self) -> Seq<char> {
        if self.current() is Some && self.show.question {
            self.current().unwrap().question
        } else {
            Seq::empty()
        }
    }

    /// The first hint a redraw shows, by the same rule as the prompt.
    pub open spec fn displayed_hint1(self) -> Seq<char> {
        if self.current() is Some && self.show.hint1 {
            self.current().unwrap().hint1
        } else {
            Seq::empty()
        }
    }

    /// The second hint a redraw shows, by the same rule as the prompt.
    pub open spec fn displayed_hint2(self) -> Seq<char> {
        if self.current() is Some && self.show.hint2 {
            self.current().unwrap().hint2
        } else {
            Seq::empty()
        }
    }

    /// The answer a redraw shows, by the same rule as the prompt.
    pub open spec fn displayed_answer(self) -> Seq<char> {
        if self.current() is Some && self.show.answer {
            self.current().unwrap().answer
        } else {
            Seq::empty()
        }
    }
}

/// The viewer's state: the loaded quiz, the current index, the index as
/// of the last redraw, the visibility flags and the display scale.
pub struct MyApp {
    scale_tenths: u32,
    questions: Option<Vec<Question>>,
    question_nr: usize,
    prev_question_nr: usize,
    show: Show,
}

impl View for MyApp {
    type V = MyAppView;

    closed spec fn view(&self) -> MyAppView {
        MyAppView {
            scale_tenths: self.scale_tenths,
            questions: match self.questions {
                Some(qs) => Some(qs.deep_view()),
                None => None,
            },
            question_nr: self.question_nr as nat,
            prev_question_nr: self.prev_question_nr as nat,
            show: self.show,
        }
    }
}

impl Default for MyApp {
    /// A fresh state: no quiz, index zero, everything hidden, default
    /// scale.
    fn default() -> (r: MyApp)
        ensures
            r@ == (MyAppView {
                scale_tenths: DEFAULT_SCALE_TENTHS,
                questions: None,
                question_nr: 0,
                prev_question_nr: 0,
                show: Show::spec_hidden(),
            }),
            r@.wf(),
    {
        MyApp {
            scale_tenths: DEFAULT_SCALE_TENTHS,
            questions: None,
            question_nr: 0,
            prev_question_nr: 0,
            show: Show::hidden(),
        }
    }
}

/// Relies on `String::from_utf8`: it succeeds exactly on valid UTF-8
/// input and returns its decoding.
#[verifier::external_body]
fn utf8_to_string(bytes: &Vec<u8>) -> (r: Option<String>)
    ensures
        r is Some <==> valid_utf8(bytes@),
        r is Some ==> r.unwrap()@ == decode_utf8(bytes@),
{
    String::from_utf8(bytes.clone()).ok()
}

impl MyApp {
    /// Rebuilds a state restored from persisted window state: the quiz,
    /// the indices and the scale are taken over, with the scale raised to
    /// the floor and the index clamped to the quiz length where the
    /// record was out of range, and every visibility flag forced off.
    pub fn from_persisted(
        scale_tenths: u32,
        questions: Option<Vec<Question>>,
        question_nr: usize,
        prev_question_nr: usize,
    ) -> (r: MyApp)
        ensures
            r@.scale_tenths == if scale_tenths >= SCALE_FLOOR_TENTHS {
                scale_tenths
            } else {
                SCALE_FLOOR_TENTHS
            },
            r@.questions == match questions {
                Some(qs) => Some(qs.deep_view()),
                None => None::<Seq<QuestionView>>,
            },
            r@.question_nr == if question_nr as nat <= r@.quiz_len() {
                question_nr as nat
            } else {
                r@.quiz_len()
            },
            r@.prev_question_nr == prev_question_nr as nat,
            r@.show == Show::spec_hidden(),
            r@.wf(),
    {
        let scale = if scale_tenths >= SCALE_FLOOR_TENTHS {
            scale_tenths
        } else {
            SCALE_FLOOR_TENTHS
        };
        let len: usize = match &questions {
            Some(qs) => qs.len(),
            None => 0,
        };
        let nr = if question_nr <= len {
            question_nr
        } else {
            len
        };
        MyApp {
            scale_tenths: scale,
            questions,
            question_nr: nr,
            prev_question_nr,
            show: Show::hidden(),
        }
    }

    /// The number of questions of the loaded quiz; zero while none is
    /// loaded.
    pub fn quiz_len(&self) -> (r: usize)
        ensures
            r as nat == self@.quiz_len(),
    {
        match &self.questions {
            Some(qs) => qs.len(),
            None => 0,
        }
    }

    /// The loaded quiz, if any.
    pub fn questions(&self) -> (r: &Option<Vec<Question>>)
        ensures
            match r {
                Some(qs) => self@.questions == Some(qs.deep_view()),
                None => self@.questions is None,
            },
    {
        &self.questions
    }

    /// Whether a quiz is loaded.
    pub fn has_quiz(&self) -> (r: bool)
        ensures
            r == (self@.questions is Some),
    {
        self.questions.is_some()
    }

    /// The display scale, in tenths of the scale factor.
    pub fn scale_tenths(&self) -> (r: u32)
        ensures
            r == self@.scale_tenths,
    {
        self.scale_tenths
    }

    /// The index of the current question.
    pub fn question_nr(&self) -> (r: usize)
        ensures
            r as nat == self@.question_nr,
    {
        self.question_nr
    }

    /// The index as of the last redraw.
    pub fn prev_question_nr(&self) -> (r: usize)
        ensures
            r as nat == self@.prev_question_nr,
    {
        self.prev_question_nr
    }

    /// The visibility flags.
    pub fn show(&self) -> (r: Show)
        ensures
            r == self@.show,
    {
        self.show
    }

    /// The record the index points at, if it points at one.
    pub fn current_question(&self) -> (r: Option<&Question>)
        ensures
            match r {
                Some(q) => self@.current() == Some(q@),
                None => self@.current() is None,
            },
    {
        match &self.questions {
            Some(qs) => {
                if self.question_nr < qs.len() {
                    Some(&qs[self.question_nr])
                } else {
                    None
                }
            },
            None => None,
        }
    }

    /// One redraw's index-change bookkeeping: if the index moved since
    /// the last redraw, every field is hidden again and the move is
    /// recorded; otherwise nothing changes.
    pub fn frame_sync(&mut self)
        ensures
            old(self)@.question_nr != old(self)@.prev_question_nr ==> final(self)@ == (MyAppView {
                prev_question_nr: old(self)@.question_nr,
                show: Show::spec_hidden(),
                ..old(self)@
            }),
            old(self)@.question_nr == old(self)@.prev_question_nr ==> final(self)@ == old(self)@,
            old(self)@.wf() ==> final(self)@.wf(),
    {
        if self.question_nr != self.prev_question_nr {
            self.prev_question_nr = self.question_nr;
            self.show = Show::hidden();
        }
    }

    /// Handles one text delivered by the file-load bridge: a well-formed,
    /// non-empty quiz replaces the current one and the viewer returns to
    /// the first question with everything hidden; a malformed or empty
    /// payload changes nothing.
    pub fn process_message(&mut self, text: &str)
        ensures
            ({
                let parsed = spec_parse_quiz(text@);
                if parsed is Some && parsed.unwrap().len() >= 1 {
                    final(self)@ == (MyAppView {
                        questions: Some(parsed.unwrap()),
                        question_nr: 0,
                        prev_question_nr: 0,
                        show: Show::spec_hidden(),
                        ..old(self)@
                    })
                } else {
                    final(self)@ == old(self)@
                }
            }),
            old(self)@.wf() ==> final(self)@.wf(),
    {
        match parse_quiz(text) {
            Some(qs) => {
                if qs.len() >= 1 {
                    self.questions = Some(qs);
                    self.question_nr = 0;
                    self.prev_question_nr = 0;
                    self.show = Show::hidden();
                }
            },
            None => {},
        }
    }

    /// Handles one raw file delivered by the file-load bridge: bytes that
    /// are not valid UTF-8 change nothing; otherwise the decoded text is
    /// handled like a delivered message.
    pub fn process_delivery(&mut self, bytes: &Vec<u8>)
        ensures
            !valid_utf8(bytes@) ==> final(self)@ == old(self)@,
            valid_utf8(bytes@) ==> ({
                let parsed = spec_parse_quiz(decode_utf8(bytes@));
                if parsed is Some && parsed.unwrap().len() >= 1 {
                    final(self)@ == (MyAppView {
                        questions: Some(parsed.unwrap()),
                        question_nr: 0,
                        prev_question_nr: 0,
                        show: Show::spec_hidden(),
                        ..old(self)@
                    })
                } else {
                    final(self)@ == old(self)@
                }
            }),
            old(self)@.wf() ==> final(self)@.wf(),
    {
        match utf8_to_string(bytes) {
            Some(text) => self.process_message(text.as_str()),
            None => {},
        }
    }

    /// Steps to the previous question; at the first question the index
    /// stays, without error.
    pub fn prev_question(&mut self)
        ensures
            old(self)@.question_nr > 0 ==> final(self)@ == (MyAppView {
                question_nr: (old(self)@.question_nr - 1) as nat,
                ..old(self)@
            }),
            old(self)@.question_nr == 0 ==> final(self)@ == old(self)@,
            old(self)@.wf() ==> final(self)@.wf(),
    {
        if self.question_nr > 0 {
            self.question_nr = self.question_nr - 1;
        }
    }

    /// Steps to the next question; the index saturates at the quiz
    /// length, without error.
    pub fn next_question(&mut self)
        ensures
            old(self)@.question_nr < old(self)@.quiz_len() ==> final(self)@ == (MyAppView {
                question_nr: old(self)@.question_nr + 1,
                ..old(self)@
            }),
            old(self)@.question_nr >= old(self)@.quiz_len() ==> final(self)@ == old(self)@,
            old(self)@.wf() ==> final(self)@.wf(),
    {
        let len = self.quiz_len();
        if self.question_nr < len {
            self.question_nr = self.question_nr + 1;
        }
    }

    /// Jumps to the given index, clamped to the range from zero to the
    /// quiz length.
    pub fn set_question_nr(&mut self, nr: usize)
        ensures
            final(self)@ == (MyAppView {
                question_nr: if nr as nat <= old(self)@.quiz_len() {
                    nr as nat
                } else {
                    old(self)@.quiz_len()
                },
                ..old(self)@
            }),
            old(self)@.wf() ==> final(self)@.wf(),
    {
        let len = self.quiz_len();
        self.question_nr = if nr <= len {
            nr
        } else {
            len
        };
    }

    /// Steps the display scale up by one tenth; it saturates at the
    /// largest representable value.
    pub fn increase_scale(&mut self)
        ensures
            old(self)@.scale_tenths < u32::MAX ==> final(self)@ == (MyAppView {
                scale_tenths: (old(self)@.scale_tenths + 1) as u32,
                ..old(self)@
            }),
            old(self)@.scale_tenths == u32::MAX ==> final(self)@ == old(self)@,
            old(self)@.wf() ==> final(self)@.wf(),
    {
        if self.scale_tenths < u32::MAX {
            self.scale_tenths = self.scale_tenths + 1;
        }
    }

    /// Steps the display scale down by one tenth; it never drops below
    /// the positive floor, however often it is applied.
    pub fn decrease_scale(&mut self)
        ensures
            final(self)@ == (MyAppView {
                scale_tenths: if old(self)@.scale_tenths > SCALE_FLOOR_TENTHS {
                    (old(self)@.scale_tenths - 1) as u32
                } else {
                    SCALE_FLOOR_TENTHS
                },
                ..old(self)@
            }),
            final(self)@.scale_tenths >= SCALE_FLOOR_TENTHS,
            old(self)@.wf() ==> final(self)@.wf(),
    {
        if self.scale_tenths > SCALE_FLOOR_TENTHS {
            self.scale_tenths = self.scale_tenths - 1;
        } else {
            self.scale_tenths = SCALE_FLOOR_TENTHS;
        }
    }

    /// Flips whether the prompt is revealed; nothing else changes.
    pub fn toggle_question(&mut self)
        ensures
            final(self)@ == (MyAppView {
                show: (Show { question: !old(self)@.show.question, ..old(self)@.show }),
                ..old(self)@
            }),
            old(self)@.wf() ==> final(self)@.wf(),
    {
        self.show.toggle_question();
    }

    /// Flips whether the first hint is revealed; nothing else changes.
    pub fn toggle_hint1(&mut self)
        ensures
            final(self)@ == (MyAppView {
                show: (Show { hint1: !old(self)@.show.hint1, ..old(self)@.show }),
                ..old(self)@
            }),
            old(self)@.wf() ==> final(self)@.wf(),
    {
        self.show.toggle_hint1();
    }

    /// Flips whether the second hint is revealed; nothing else changes.
    pub fn toggle_hint2(&mut self)
        ensures
            final(self)@ == (MyAppView {
                show: (Show { hint2: !old(self)@.show.hint2, ..old(self)@.show }),
                ..old(self)@
            }),
            old(self)@.wf() ==> final(self)@.wf(),
    {
        self.show.toggle_hint2();
    }

    /// Flips whether the answer is revealed; nothing else changes.
    pub fn toggle_answer(&mut self)
        ensures
            final(self)@ == (MyAppView {
                show: (Show { answer: !old(self)@.show.answer, ..old(self)@.show }),
                ..old(self)@
            }),
            old(self)@.wf() ==> final(self)@.wf(),
    {
        self.show.toggle_answer();
    }

    /// The prompt text a redraw shows: the current question's prompt when
    /// one is selected and revealed, and the empty placeholder otherwise.
    pub fn displayed_question(&self) -> (r: String)
        ensures
            r@ == self@.displayed_question(),
    {
        match &self.questions {
            Some(qs) => {
                if self.question_nr < qs.len() && self.show.question {
                    qs[self.question_nr].question.clone()
                } else {
                    String::new()
                }
            },
            None => String::new(),
        }
    }

    /// The first hint a redraw shows, by the same rule as the prompt.
    pub fn displayed_hint1(&self) -> (r: String)
        ensures
            r@ == self@.displayed_hint1(),
    {
        match &self.questions {
            Some(qs) => {
                if self.question_nr < qs.len() && self.show.hint1 {
                    qs[self.question_nr].hint1.clone()
                } else {
                    String::new()
                }
            },
            None => String::new(),
        }
    }

    /// The second hint a redraw shows, by the same rule as the prompt.
    pub fn displayed_hint2(&self) -> (r: String)
        ensures
            r@ == self@.displayed_hint2(),
    {
        match &self.questions {
            Some(qs) => {
                if self.question_nr < qs.len() && self.show.hint2 {
                    qs[self.question_nr].hint2.clone()
                } else {
                    String::new()
                }
            },
            None => String::new(),
        }
    }

    /// The answer a redraw shows, by the same rule as the prompt.
    pub fn displayed_answer(&self) -> (r: String)
        ensures
            r@ == self@.displayed_answer(),
    {
        match &self.questions {
            Some(qs) => {
                if self.question_nr < qs.len() && self.show.answer {
                    qs[self.question_nr].answer.clone()
                } else {
                    String::new()
                }
            },
            None => String::new(),
        }
    }
}

} // verus!

