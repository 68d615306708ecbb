//! The mathematical model of a session: its state as plain values, and each
//! step of the drill as a function from one state to the next.

use crate::app_state::AppState;
use crate::decimal::{is_digit, lemma_parse_of_decimal, spec_decimal, spec_parse_i32};
use crate::question::Question;
use crate::testconfig::TestConfig;
use crate::text::without_last;
use std::time::Instant;
use vstd::prelude::*;

verus! {

/// The place of the menu that starts a test; the places before it hold the
/// nine settings.
pub open spec fn start_item() -> nat {
    9
}

/// A key press, as far as the drill tells keys apart.
#[derive(Clone, Copy, Debug, PartialEq, Eq, Structural)]
pub enum Key {
    Char(char),
    Backspace,
    Enter,
    Esc,
    Up,
    Down,
    Other,
}

/// What the program does after a key press: go on, or end.
#[derive(Clone, Copy, Debug, PartialEq, Eq, Structural)]
pub enum Flow {
    Continue,
    Quit,
}

/// The state of a session, with each text as its characters and each count
/// as a natural number.
pub struct Session {
    pub config: TestConfig,
    pub state: AppState,
    pub selected: nat,
    pub answered: nat,
    pub question: Option<Question>,
    pub answer: Seq<char>,
    pub start_time: Option<Instant>,
    pub editing: bool,
    pub input: Seq<char>,
    pub input_started: bool,
}

impl Session {
    /// The state in which a session begins: at the settings, which have
    /// their first values, with the first place of the menu selected, no
    /// question, no clock and empty texts.
    pub open spec fn initial() -> Session {
        Session {
            config: TestConfig::spec_default(),
            state: AppState::Configuration,
            selected: 0,
            answered: 0,
            question: None,
            answer: Seq::empty(),
            start_time: None,
            editing: false,
            input: Seq::empty(),
            input_started: false,
        }
    }

    /// The seconds that are left when the clock shows `elapsed` seconds since
    /// the start of the test: the whole time limit while no test has started.
    pub open spec fn remaining(self, elapsed: u64) -> u64 {
        if self.start_time is Some {
            self.config.spec_remaining_after(elapsed)
        } else {
            self.config.time_limit
        }
    }

    /// The state after a test has started at the moment `now` with `question`
    /// as its first question: the score is 0 and the answer empty.
    pub open spec fn started(self, question: Question, now: Instant) -> Session {
        Session {
            answered: 0,
            answer: Seq::empty(),
            question: Some(question),
            state: AppState::Testing,
            start_time: Some(now),
            ..self
        }
    }

    /// The typed answer reads as a number, and that number is the answer of
    /// the question that is asked.
    pub open spec fn answer_is_correct(self) -> bool {
        &&& self.question is Some
        &&& spec_parse_i32(self.answer) == Some(self.question->0.correct_answer)
    }

    /// The state after a correct answer has been counted: the score is one
    /// higher and the answer is empty.
    pub open spec fn credited(self) -> Session {
        Session { answered: self.answered + 1, answer: Seq::empty(), ..self }
    }

    /// The state after the typed answer has been submitted with `remaining`
    /// seconds left, where `next` is the question that has been drawn to
    /// follow. Any answer but the correct one changes nothing. A correct one
    /// is counted; then the test ends if no time is left, and else goes on
    /// with `next`.
    pub open spec fn submitted(self, remaining: u64, next: Question) -> Session {
        if !self.answer_is_correct() {
            self
        } else if remaining == 0 {
            Session { state: AppState::Results, ..self.credited() }
        } else {
            Session { question: Some(next), ..self.credited() }
        }
    }

    /// The state after the clock has been looked at with `remaining` seconds
    /// left: a running test ends when nothing is left.
    pub open spec fn checked(self, remaining: u64) -> Session {
        if self.state == AppState::Testing && remaining == 0 {
            Session { state: AppState::Results, ..self }
        } else {
            self
        }
    }

    /// The state after leaving a test or its score for the settings: the
    /// clock is cleared.
    pub open spec fn back_to_settings(self) -> Session {
        Session { state: AppState::Configuration, start_time: None, ..self }
    }

    /// The state after the selected setting has been opened for editing: the
    /// input holds its present value, and no digit has been typed yet.
    pub open spec fn editing_started(self) -> Session {
        Session {
            editing: true,
            input: spec_decimal(self.config.spec_get(self.selected as int) as int),
            input_started: false,
            ..self
        }
    }

    /// The state after an edit has been given up: the input is dropped and
    /// the settings are as they were.
    pub open spec fn editing_cancelled(self) -> Session {
        Session { editing: false, input: Seq::empty(), input_started: false, ..self }
    }

    /// The value that the input would store: the number it reads as, where
    /// it reads as one and that one is above 0.
    pub open spec fn accepted_input(self) -> Option<i32> {
        match spec_parse_i32(self.input) {
            Some(value) => if value > 0 {
                Some(value)
            } else {
                None
            },
            None => None,
        }
    }

    /// The state after an edit has been committed: the selected setting gets
    /// the accepted value of the input, if it has one, and the edit is over.
    pub open spec fn editing_finished(self) -> Session {
        let config = match self.accepted_input() {
            Some(value) => self.config.spec_set(self.selected as int, value),
            None => self.config,
        };
        Session { config, ..self.editing_cancelled() }
    }

    /// The state after a digit has been typed into an edit: the first digit
    /// takes the place of the value that the input showed, each later one
    /// goes behind the digits typed before.
    pub open spec fn input_typed(self, digit: char) -> Session {
        let kept = if self.input_started {
            self.input
        } else {
            Seq::empty()
        };
        Session { input: kept.push(digit), input_started: true, ..self }
    }

    /// The settings are shown and no setting is being edited.
    pub open spec fn browsing(self) -> bool {
        self.state == AppState::Configuration && !self.editing
    }

    /// `key` ends the program: `q`, at the settings while nothing is edited,
    /// or at the score.
    pub open spec fn quits_on(self, key: Key) -> bool {
        key == Key::Char('q') && (self.browsing() || self.state == AppState::Results)
    }

    /// `key` starts a test: the enter key on the last place of the menu.
    pub open spec fn starts_test_on(self, key: Key) -> bool {
        self.browsing() && key == Key::Enter && self.selected == start_item()
    }

    /// `key` submits the answer: the enter key in a test, once something has
    /// been typed.
    pub open spec fn submits_on(self, key: Key) -> bool {
        self.state == AppState::Testing && key == Key::Enter && self.answer.len() > 0
    }

    /// The state after `key` while a setting is edited: a digit goes into
    /// the input, backspace takes its last character away, enter commits the
    /// edit and escape gives it up.
    pub open spec fn after_key_editing(self, key: Key) -> Session {
        match key {
            Key::Char(c) => if is_digit(c) {
                self.input_typed(c)
            } else {
                self
            },
            Key::Backspace => Session { input: without_last(self.input), ..self },
            Key::Enter => self.editing_finished(),
            Key::Esc => self.editing_cancelled(),
            _ => self,
        }
    }

    /// The state after `key` in the menu: up and down move the selection
    /// within the menu, enter on a setting opens it for editing.
    pub open spec fn after_key_browsing(self, key: Key) -> Session {
        match key {
            Key::Up => if self.selected > 0 {
                Session { selected: (self.selected - 1) as nat, ..self }
            } else {
                self
            },
            Key::Down => if self.selected < start_item() {
                Session { selected: self.selected + 1, ..self }
            } else {
                self
            },
            Key::Enter => if self.selected == start_item() {
                self
            } else {
                self.editing_started()
            },
            _ => self,
        }
    }

    /// The state after `key` in a test: a digit or a minus sign goes into the
    /// answer, backspace takes its last character away, escape leaves the
    /// test.
    pub open spec fn after_key_testing(self, key: Key) -> Session {
        match key {
            Key::Char(c) => if is_answer_char(c) {
                Session { answer: self.answer.push(c), ..self }
            } else {
                self
            },
            Key::Backspace => Session { answer: without_last(self.answer), ..self },
            Key::Esc => self.back_to_settings(),
            _ => self,
        }
    }

    /// The state after `key` at the score: `r` goes back to the settings.
    pub open spec fn after_key_results(self, key: Key) -> Session {
        if key == Key::Char('r') {
            self.back_to_settings()
        } else {
            self
        }
    }

    /// The state after a key that neither starts a test nor submits an
    /// answer.
    pub open spec fn after_key(self, key: Key) -> Session {
        match self.state {
            AppState::Configuration => if self.editing {
                self.after_key_editing(key)
            } else {
                self.after_key_browsing(key)
            },
            AppState::Testing => self.after_key_testing(key),
            AppState::Results => self.after_key_results(key),
        }
    }

    /// `next` is a state that starting a test can lead to from this one: the
    /// state after a start with some question that the settings allow, at
    /// some moment.
    pub open spec fn starts_into(self, next: Session) -> bool {
        &&& next.question is Some
        &&& next.start_time is Some
        &&& next.question->0.fits(self.config)
        &&& next == self.started(next.question->0, next.start_time->0)
    }

    /// `next` is a state that submitting the answer can lead to from this
    /// one: this state itself, unless the answer is correct; else the state
    /// in which it has been counted and the test has ended, or goes on with a
    /// question that the settings allow.
    pub open spec fn submits_into(self, next: Session) -> bool {
        if !self.answer_is_correct() {
            next == self
        } else {
            ||| next == (Session { state: AppState::Results, ..self.credited() })
            ||| {
                &&& next.question is Some
                &&& next.question->0.fits(self.config)
                &&& next == (Session { question: next.question, ..self.credited() })
            }
        }
    }
}

/// `c` may stand in an answer: a digit or the minus sign.
pub open spec fn is_answer_char(c: char) -> bool {
    is_digit(c) || c == '-'
}

/// A text that reads as no number is no correct answer: the empty text and
/// any text with a character that is neither a sign in front nor a digit.
pub proof fn lemma_unreadable_answer_is_not_correct(session: Session)
    requires
        spec_parse_i32(session.answer) is None,
    ensures
        !session.answer_is_correct(),
{
}

/// Submitting an answer that is empty, reads as no number or is wrong
/// changes nothing: the score, the question, the stage and the typed answer
/// stay as they are, whatever the clock shows and whichever question would
/// follow.
pub proof fn lemma_rejected_answer_changes_nothing(
    session: Session,
    remaining: u64,
    next: Question,
    after: Session,
)
    requires
        !session.answer_is_correct(),
    ensures
        spec_parse_i32(Seq::<char>::empty()) is None,
        session.submitted(remaining, next) == session,
        session.submits_into(after) ==> after == session,
{
}

/// A correct answer with time left is counted once, empties the answer and
/// brings the next question; the test goes on.
pub proof fn lemma_correct_answer_advances(session: Session, remaining: u64, next: Question)
    requires
        session.answer_is_correct(),
        remaining > 0,
    ensures
        session.submitted(remaining, next).answered == session.answered + 1,
        session.submitted(remaining, next).question == Some(next),
        session.submitted(remaining, next).state == session.state,
        session.submitted(remaining, next).answer == Seq::<char>::empty(),
{
}

/// Once as many seconds as the time limit have passed since its start, a
/// running test ends at the next look at the clock, with no key pressed.
pub proof fn lemma_test_ends_at_limit(session: Session, elapsed: u64)
    requires
        session.state == AppState::Testing,
        session.start_time is Some,
        elapsed >= session.config.time_limit,
    ensures
        session.checked(session.remaining(elapsed)).state == AppState::Results,
        session.checked(session.remaining(elapsed)) == (Session {
            state: AppState::Results,
            ..session
        }),
{
}

/// Right after the start of a test, with no second elapsed, the whole time
/// limit is left.
pub proof fn lemma_whole_limit_left_at_start(session: Session, question: Question, now: Instant)
    ensures
        session.started(question, now).remaining(0) == session.config.time_limit,
{
}

/// Opening one of the eight range ends for editing and committing at once,
/// with nothing typed, leaves the settings as they were.
pub proof fn lemma_untouched_edit_keeps_settings(session: Session)
    requires
        session.selected < 8,
    ensures
        session.editing_started().editing_finished().config == session.config,
{
    lemma_parse_of_decimal(session.config.spec_get(session.selected as int));
}

/// An edit that is given up leaves the settings as they were, whatever was
/// typed.
pub proof fn lemma_cancelled_edit_keeps_settings(session: Session)
    ensures
        session.editing_cancelled().config == session.config,
        !session.editing_cancelled().editing,
{
}

/// The selection never leaves the menu: from a place of the menu every key
/// leads to a place of the menu.
pub proof fn lemma_selection_stays_in_menu(session: Session, key: Key)
    requires
        session.selected <= start_item(),
    ensures
        session.after_key(key).selected <= start_item(),
{
}

} // verus!
