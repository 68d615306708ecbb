//! One arithmetic problem and how it is drawn from the settings.

use crate::decimal::{render_i32, spec_decimal};
use crate::draw::draw_inclusive;
use crate::operation::Operation;
use crate::testconfig::{fits_i32, lemma_product_between_corners, TestConfig};
use vstd::prelude::*;

verus! {

/// An arithmetic problem, `a` and `b` joined by `operation`, with the answer
/// that is counted as correct.
#[derive(Clone, Copy, Debug, PartialEq, Eq, Structural)]
pub struct Question {
    pub a: i32,
    pub b: i32,
    pub operation: Operation,
    pub correct_answer: i32,
}

impl Question {
    /// The question of kind `operation` that two drawn numbers make. An
    /// addition or a multiplication has them as its operands. A subtraction
    /// or a division has `x` as its answer and `y` as its second operand, and
    /// the first operand that makes it come out exactly.
    pub open spec fn spec_from_draws(operation: Operation, x: i32, y: i32) -> Question {
        match operation {
            Operation::Addition => Question { a: x, b: y, operation, correct_answer: (x + y) as i32 },
            Operation::Subtraction => Question {
                a: (x + y) as i32,
                b: y,
                operation,
                correct_answer: x,
            },
            Operation::Multiplication => Question {
                a: x,
                b: y,
                operation,
                correct_answer: (x * y) as i32,
            },
            Operation::Division => Question { a: (x * y) as i32, b: y, operation, correct_answer: x },
        }
    }

    /// The number that two draws must leave within 32 bits for a question of
    /// kind `operation`: their sum or their product.
    pub open spec fn combined(operation: Operation, x: i32, y: i32) -> int {
        match operation {
            Operation::Addition | Operation::Subtraction => x + y,
            Operation::Multiplication | Operation::Division => x * y,
        }
    }

    /// The answer is what the operation gives on the two operands: the sum,
    /// the difference, the product, or the quotient of a division by a
    /// divisor other than 0 that leaves no remainder.
    pub open spec fn well_posed(self) -> bool {
        match self.operation {
            Operation::Addition => self.correct_answer == self.a + self.b,
            Operation::Subtraction => self.correct_answer == self.a - self.b,
            Operation::Multiplication => self.correct_answer == self.a * self.b,
            Operation::Division => self.b != 0 && (self.a as int) % (self.b as int) == 0
                && self.correct_answer == (self.a as int) / (self.b as int),
        }
    }

    /// The question is one that `config` allows. The operands of an addition
    /// lie in the addition ranges and those of a multiplication in the
    /// multiplication ranges. Of a subtraction the answer and the second
    /// operand lie in the addition ranges. Of a division the answer lies in
    /// the first multiplication range and the divisor in the second, and is
    /// at least 1. In each case the answer is that of the operation.
    pub open spec fn fits(self, config: TestConfig) -> bool {
        match self.operation {
            Operation::Addition => {
                &&& config.add_min_a <= self.a <= config.add_max_a
                &&& config.add_min_b <= self.b <= config.add_max_b
                &&& self.correct_answer == self.a + self.b
            },
            Operation::Subtraction => {
                &&& config.add_min_a <= self.correct_answer <= config.add_max_a
                &&& config.add_min_b <= self.b <= config.add_max_b
                &&& self.a == self.correct_answer + self.b
            },
            Operation::Multiplication => {
                &&& config.mul_min_a <= self.a <= config.mul_max_a
                &&& config.mul_min_b <= self.b <= config.mul_max_b
                &&& self.correct_answer == self.a * self.b
            },
            Operation::Division => {
                &&& config.mul_min_a <= self.correct_answer <= config.mul_max_a
                &&& config.divisor_min() <= self.b <= config.mul_max_b
                &&& self.b >= 1
                &&& self.a == self.correct_answer * self.b
            },
        }
    }

    /// The text under which the question is shown: the first operand, the
    /// sign of the operation and the second operand, a space between them,
    /// then ` = ?`.
    pub open spec fn spec_display(self) -> Seq<char> {
        spec_decimal(self.a as int) + seq![' '] + self.operation.spec_symbol() + seq![' ']
            + spec_decimal(self.b as int) + seq![' ', '=', ' ', '?']
    }

    /// Makes the question of kind `operation` from two drawn numbers.
    pub fn from_draws(operation: Operation, x: i32, y: i32) -> (question: Question)
        requires
            fits_i32(Question::combined(operation, x, y)),
        ensures
            question == Question::spec_from_draws(operation, x, y),
    {
        match operation {
            Operation::Addition => Question { a: x, b: y, operation, correct_answer: x + y },
            Operation::Subtraction => Question { a: x + y, b: y, operation, correct_answer: x },
            Operation::Multiplication => Question { a: x, b: y, operation, correct_answer: x * y },
            Operation::Division => Question { a: x * y, b: y, operation, correct_answer: x },
        }
    }

    /// Draws a question from `config`: one of the four kinds, then two
    /// numbers from the ranges of that kind.
    pub fn new(config: &TestConfig) -> (question: Question)
        requires
            config.generable(),
        ensures
            question.fits(*config),
            question.well_posed(),
    {
        let operation = Operation::random();
        let question = match operation {
            Operation::Addition | Operation::Subtraction => {
                let x = draw_inclusive(config.add_min_a, config.add_max_a);
                let y = draw_inclusive(config.add_min_b, config.add_max_b);
                Question::from_draws(operation, x, y)
            },
            Operation::Multiplication => {
                let x = draw_inclusive(config.mul_min_a, config.mul_max_a);
                let y = draw_inclusive(config.mul_min_b, config.mul_max_b);
                proof {
                    lemma_product_between_corners(
                        x as int,
                        y as int,
                        config.mul_min_a as int,
                        config.mul_max_a as int,
                        config.mul_min_b as int,
                        config.mul_max_b as int,
                    );
                }
                Question::from_draws(operation, x, y)
            },
            Operation::Division => {
                let least: i32 = if config.mul_min_b < 1 {
                    1
                } else {
                    config.mul_min_b
                };
                let x = draw_inclusive(config.mul_min_a, config.mul_max_a);
                let y = draw_inclusive(least, config.mul_max_b);
                proof {
                    lemma_product_between_corners(
                        x as int,
                        y as int,
                        config.mul_min_a as int,
                        config.mul_max_a as int,
                        config.mul_min_b as int,
                        config.mul_max_b as int,
                    );
                }
                Question::from_draws(operation, x, y)
            },
        };
        proof {
            lemma_fitting_question_is_well_posed(question, *config);
        }
        question
    }

    /// The text under which the question is shown, such as `7 * 8 = ?`.
    pub fn display(&self) -> (text: String)
        ensures
            text@ == self.spec_display(),
    {
        let mut text = render_i32(self.a);
        text.push(' ');
        text.append(self.operation.symbol());
        text.push(' ');
        text.append(render_i32(self.b).as_str());
        text.append(" = ?");
        proof {
            reveal_strlit(" = ?");
            assert(" = ?"@ =~= seq![' ', '=', ' ', '?']);
            assert(text@ =~= self.spec_display());
        }
        text
    }
}

/// A question that the settings allow has the answer of its operation: the
/// operands of a subtraction differ by the answer, and a division comes out
/// exactly, with no remainder.
pub proof fn lemma_fitting_question_is_well_posed(question: Question, config: TestConfig)
    requires
        question.fits(config),
    ensures
        question.well_posed(),
{
    if question.operation == Operation::Division {
        let q = question.correct_answer as int;
        let b = question.b as int;
        assert((q * b) % b == 0 && (q * b) / b == q) by (nonlinear_arith)
            requires
                b >= 1,
        ;
    }
}

/// The question made from two draws out of the ranges of its kind is one
/// that the settings allow.
pub proof fn lemma_draws_fit(config: TestConfig, operation: Operation, x: i32, y: i32)
    requires
        fits_i32(Question::combined(operation, x, y)),
        match operation {
            Operation::Addition | Operation::Subtraction => {
                &&& config.add_min_a <= x <= config.add_max_a
                &&& config.add_min_b <= y <= config.add_max_b
            },
            Operation::Multiplication => {
                &&& config.mul_min_a <= x <= config.mul_max_a
                &&& config.mul_min_b <= y <= config.mul_max_b
            },
            Operation::Division => {
                &&& config.mul_min_a <= x <= config.mul_max_a
                &&& config.divisor_min() <= y <= config.mul_max_b
            },
        },
    ensures
        Question::spec_from_draws(operation, x, y).fits(config),
{
}

} // verus!
