//! The session that the program runs: the settings, the running test and
//! its score, and what each key and each look at the clock does to them.

use crate::app_state::AppState;
use crate::decimal::{parse_i32, render_i32};
use crate::question::Question;
use crate::session::{Flow, Key, Session};
use crate::testconfig::TestConfig;
use std::time::Instant;
use vstd::prelude::*;

verus! {

/// The label of the place `index` of the menu: the nine settings, then the
/// line that starts a test.
pub open spec fn spec_label(index: int) -> Seq<char> {
    if index == 0 {
        "Addition Min A"@
    } else if index == 1 {
        "Addition Max A"@
    } else if index == 2 {
        "Addition Min B"@
    } else if index == 3 {
        "Addition Max B"@
    } else if index == 4 {
        "Multiplication Min A"@
    } else if index == 5 {
        "Multiplication Max A"@
    } else if index == 6 {
        "Multiplication Min B"@
    } else if index == 7 {
        "Multiplication Max B"@
    } else if index == 8 {
        "Time Limit (seconds)"@
    } else if index == 9 {
        ">>> START TEST <<<"@
    } else {
        "Unknown"@
    }
}

/// A session of the drill.
pub struct App {
    pub config: TestConfig,
    pub state: AppState,
    pub selected_config_item: usize,
    pub questions_answered: usize,
    pub current_question: Option<Question>,
    pub user_answer: String,
    pub start_time: Option<Instant>,
    pub editing_config: bool,
    pub config_input: String,
    pub config_input_started: bool,
}

impl View for App {
    type V = Session;

    open spec fn view(&self) -> Session {
        Session {
            config: self.config,
            state: self.state,
            selected: self.selected_config_item as nat,
            answered: self.questions_answered as nat,
            question: self.current_question,
            answer: self.user_answer@,
            start_time: self.start_time,
            editing: self.editing_config,
            input: self.config_input@,
            input_started: self.config_input_started,
        }
    }
}

impl Default for App {
    /// A session as it begins.
    fn default() -> (app: App)
        ensures
            app@ == Session::initial(),
    {
        App {
            config: TestConfig::default(),
            state: AppState::default(),
            selected_config_item: 0,
            questions_answered: 0,
            current_question: None,
            user_answer: String::new(),
            start_time: None,
            editing_config: false,
            config_input: String::new(),
            config_input_started: false,
        }
    }
}

impl App {
    /// A session as it begins: at the settings, with their first values.
    pub fn new() -> (app: App)
        ensures
            app@ == Session::initial(),
    {
        App::default()
    }

    /// Reads the setting at place `index` of the menu; 0 where the menu has
    /// no setting.
    pub fn get_config_value(&self, index: usize) -> (value: i32)
        ensures
            value == self.config.spec_get(index as int),
    {
        self.config.get(index)
    }

    /// Stores `value` at place `index` of the menu, unchecked; does nothing
    /// where the menu has no setting.
    pub fn set_config_value(&mut self, index: usize, value: i32)
        ensures
            final(self)@ == (Session {
                config: old(self).config.spec_set(index as int, value),
                ..old(self)@
            }),
    {
        self.config.set(index, value);
    }

    /// The label of place `index` of the menu.
    pub fn get_config_label(&self, index: usize) -> (label: &str)
        ensures
            label@ == spec_label(index as int),
    {
        match index {
            0 => "Addition Min A",
            1 => "Addition Max A",
            2 => "Addition Min B",
            3 => "Addition Max B",
            4 => "Multiplication Min A",
            5 => "Multiplication Max A",
            6 => "Multiplication Min B",
            7 => "Multiplication Max B",
            8 => "Time Limit (seconds)",
            9 => ">>> START TEST <<<",
            _ => "Unknown",
        }
    }

    /// Opens the selected setting for editing, with its present value as the
    /// input.
    pub fn start_editing(&mut self)
        ensures
            final(self)@ == old(self)@.editing_started(),
    {
        self.editing_config = true;
        self.config_input = render_i32(self.get_config_value(self.selected_config_item));
        self.config_input_started = false;
    }

    /// Commits the edit: the input is stored in the selected setting where
    /// it reads as a number above 0, and dropped otherwise.
    pub fn finish_editing(&mut self)
        ensures
            final(self)@ == old(self)@.editing_finished(),
    {
        match parse_i32(self.config_input.as_str()) {
            Some(value) => {
                if value > 0 {
                    self.set_config_value(self.selected_config_item, value);
                }
            },
            None => {},
        }
        self.editing_config = false;
        self.config_input = String::new();
        self.config_input_started = false;
    }

    /// Gives the edit up: the settings stay as they were.
    pub fn cancel_editing(&mut self)
        ensures
            final(self)@ == old(self)@.editing_cancelled(),
    {
        self.editing_config = false;
        self.config_input = String::new();
        self.config_input_started = false;
    }

    /// The seconds that are left of the test with `elapsed` seconds on the
    /// clock: the whole time limit while no test has started, 0 once the
    /// limit is reached.
    pub fn remaining_at(&self, elapsed: u64) -> (left: u64)
        ensures
            left == self@.remaining(elapsed),
    {
        if self.start_time.is_some() {
            self.config.remaining_after(elapsed)
        } else {
            self.config.time_limit
        }
    }

    /// The seconds that are left of the test, by the clock: the whole time
    /// limit while no test has started, and never more than that.
    pub fn time_remaining(&self) -> (left: u64)
        ensures
            exists|elapsed: u64| left == self@.remaining(elapsed),
            left <= self.config.time_limit,
            self.start_time is None ==> left == self.config.time_limit,
    {
        match self.start_time {
            Some(start_time) => {
                let elapsed = start_time.elapsed().as_secs();
                self.remaining_at(elapsed)
            },
            None => {
                assert(self.config.time_limit == self@.remaining(0));
                self.config.time_limit
            },
        }
    }

    /// Tells whether no time is left, by the clock.
    pub fn is_time_up(&self) -> (up: bool)
        ensures
            exists|elapsed: u64| up == (self@.remaining(elapsed) == 0),
            up ==> self.config.time_limit == 0 || self.start_time is Some,
            self.config.time_limit == 0 ==> up,
    {
        self.time_remaining() == 0
    }

    /// Starts a test at the moment `now` with `question` as its first
    /// question.
    pub fn start_test_with(&mut self, question: Question, now: Instant)
        ensures
            final(self)@ == old(self)@.started(question, now),
    {
        self.questions_answered = 0;
        self.user_answer = String::new();
        self.current_question = Some(question);
        self.state = AppState::Testing;
        self.start_time = Some(now);
    }

    /// Starts a test now: the score is 0, the answer empty, and the first
    /// question is drawn from the settings.
    pub fn start_test(&mut self)
        requires
            old(self).config.generable(),
        ensures
            old(self)@.starts_into(final(self)@),
    {
        let question = Question::new(&self.config);
        let now = Instant::now();
        self.start_test_with(question, now);
    }

    /// Tells whether the typed answer reads as the answer of the question
    /// that is asked.
    pub fn answer_is_correct(&self) -> (correct: bool)
        ensures
            correct == self@.answer_is_correct(),
    {
        match &self.current_question {
            Some(question) => match parse_i32(self.user_answer.as_str()) {
                Some(answer) => answer == question.correct_answer,
                None => false,
            },
            None => false,
        }
    }

    /// Counts a correct answer and empties the answer.
    fn credit(&mut self)
        requires
            old(self).questions_answered < usize::MAX,
        ensures
            final(self)@ == old(self)@.credited(),
    {
        self.questions_answered += 1;
        self.user_answer = String::new();
    }

    /// Submits the typed answer with `remaining` seconds left, where `next`
    /// is the question to go on with.
    pub fn submit_answer_with(&mut self, remaining: u64, next: Question)
        requires
            old(self)@.answer_is_correct() ==> old(self).questions_answered < usize::MAX,
        ensures
            final(self)@ == old(self)@.submitted(remaining, next),
    {
        if self.answer_is_correct() {
            self.credit();
            if remaining == 0 {
                self.state = AppState::Results;
            } else {
                self.current_question = Some(next);
            }
        }
    }

    /// Submits the typed answer. Any answer but the correct one changes
    /// nothing. A correct one is counted and the answer emptied; then the
    /// test ends if no time is left by the clock, and else goes on with a
    /// question drawn from the settings.
    pub fn submit_answer(&mut self)
        requires
            old(self)@.answer_is_correct() ==> old(self).questions_answered < usize::MAX && old(self).config.generable(),
        ensures
            old(self)@.submits_into(final(self)@),
    {
        if self.answer_is_correct() {
            self.credit();
            if self.is_time_up() {
                self.state = AppState::Results;
            } else {
                self.current_question = Some(Question::new(&self.config));
            }
        }
    }

    /// Ends a running test when `remaining`, the seconds left, is 0.
    pub fn check_time_with(&mut self, remaining: u64)
        ensures
            final(self)@ == old(self)@.checked(remaining),
    {
        if self.state == AppState::Testing && remaining == 0 {
            self.state = AppState::Results;
        }
    }

    /// Ends a running test when no time is left by the clock; changes
    /// nothing else, and nothing outside a test.
    pub fn check_time(&mut self)
        ensures
            final(self)@ == old(self)@ || final(self)@ == old(self)@.checked(0),
            old(self).state != AppState::Testing ==> final(self)@ == old(self)@,
            old(self).state == AppState::Testing && old(self).config.time_limit == 0 ==> final(self).state == AppState::Results,
    {
        if self.state == AppState::Testing {
            let remaining = self.time_remaining();
            self.check_time_with(remaining);
        }
    }

    /// Handles `key` while a setting is edited.
    fn handle_key_editing(&mut self, key: Key)
        ensures
            final(self)@ == old(self)@.after_key_editing(key),
    {
        match key {
            Key::Char(c) => {
                if '0' <= c && c <= '9' {
                    if !self.config_input_started {
                        self.config_input = String::new();
                        self.config_input_started = true;
                    }
                    self.config_input.push(c);
                }
            },
            Key::Backspace => {
                self.config_input.pop();
            },
            Key::Enter => {
                self.finish_editing();
            },
            Key::Esc => {
                self.cancel_editing();
            },
            _ => {},
        }
    }

    /// Handles `key` in the menu.
    fn handle_key_browsing(&mut self, key: Key)
        requires
            old(self)@.starts_test_on(key) ==> old(self).config.generable(),
            old(self)@.browsing(),
        ensures
            old(self)@.starts_test_on(key) ==> old(self)@.starts_into(final(self)@),
            !old(self)@.starts_test_on(key) ==> final(self)@ == old(self)@.after_key_browsing(key),
    {
        match key {
            Key::Up => {
                if self.selected_config_item > 0 {
                    self.selected_config_item -= 1;
                }
            },
            Key::Down => {
                if self.selected_config_item < 9 {
                    self.selected_config_item += 1;
                }
            },
            Key::Enter => {
                if self.selected_config_item == 9 {
                    self.start_test();
                } else {
                    self.start_editing();
                }
            },
            _ => {},
        }
    }

    /// Handles `key` in a test.
    fn handle_key_testing(&mut self, key: Key)
        requires
            old(self).state == AppState::Testing,
            old(self)@.submits_on(key) && old(self)@.answer_is_correct() ==> old(self).questions_answered < usize::MAX && old(self).config.generable(),
        ensures
            old(self)@.submits_on(key) ==> old(self)@.submits_into(final(self)@),
            !old(self)@.submits_on(key) ==> final(self)@ == old(self)@.after_key_testing(key),
    {
        match key {
            Key::Char(c) => {
                if ('0' <= c && c <= '9') || c == '-' {
                    self.user_answer.push(c);
                }
            },
            Key::Backspace => {
                self.user_answer.pop();
            },
            Key::Enter => {
                if !self.user_answer.as_str().is_empty() {
                    self.submit_answer();
                }
            },
            Key::Esc => {
                self.state = AppState::Configuration;
                self.start_time = None;
            },
            _ => {},
        }
    }

    /// Handles one key press and tells whether the program goes on.
    ///
    /// At the settings the keys move through the menu, edit a setting or
    /// start a test; in a test they type, correct and submit the answer or
    /// leave the test; at the score they lead back to the settings. `q` ends
    /// the program from the menu and from the score.
    pub fn handle_key(&mut self, key: Key) -> (flow: Flow)
        requires
            old(self)@.starts_test_on(key) ==> old(self).config.generable(),
            old(self)@.submits_on(key) && old(self)@.answer_is_correct() ==> old(self).questions_answered < usize::MAX && old(self).config.generable(),
        ensures
            flow == if old(self)@.quits_on(key) {
                Flow::Quit
            } else {
                Flow::Continue
            },
            old(self)@.starts_test_on(key) ==> old(self)@.starts_into(final(self)@),
            old(self)@.submits_on(key) ==> old(self)@.submits_into(final(self)@),
            !old(self)@.starts_test_on(key) && !old(self)@.submits_on(key) ==> final(self)@ == old(self)@.after_key(key),
    {
        match self.state {
            AppState::Configuration => {
                if self.editing_config {
                    self.handle_key_editing(key);
                    Flow::Continue
                } else {
                    match key {
                        Key::Char(c) => {
                            if c == 'q' {
                                Flow::Quit
                            } else {
                                Flow::Continue
                            }
                        },
                        _ => {
                            self.handle_key_browsing(key);
                            Flow::Continue
                        },
                    }
                }
            },
            AppState::Testing => {
                self.handle_key_testing(key);
                Flow::Continue
            },
            AppState::Results => {
                match key {
                    Key::Char(c) => {
                        if c == 'q' {
                            Flow::Quit
                        } else {
                            if c == 'r' {
                                self.state = AppState::Configuration;
                                self.start_time = None;
                            }
                            Flow::Continue
                        }
                    },
                    _ => Flow::Continue,
                }
            },
        }
    }
}

} // verus!
