//! The four kinds of arithmetic problem.

use crate::draw::draw_inclusive;
use vstd::prelude::*;

verus! {

/// The kind of an arithmetic problem.
#[derive(Clone, Copy, Debug, PartialEq, Eq, Structural)]
pub enum Operation {
    Addition,
    Subtraction,
    Multiplication,
    Division,
}

impl Operation {
    /// The sign under which the operation is shown.
    pub open spec fn spec_symbol(self) -> Seq<char> {
        match self {
            Operation::Addition => seq!['+'],
            Operation::Subtraction => seq!['-'],
            Operation::Multiplication => seq!['*'],
            Operation::Division => seq!['/'],
        }
    }

    /// The operation that stands at place `index` among the four; every index
    /// past the third gives the last one.
    pub open spec fn spec_from_index(index: int) -> Operation {
        if index == 0 {
            Operation::Addition
        } else if index == 1 {
            Operation::Subtraction
        } else if index == 2 {
            Operation::Multiplication
        } else {
            Operation::Division
        }
    }

    /// The one-character sign of the operation: `+`, `-`, `*` or `/`.
    pub fn symbol(&self) -> (sign: &str)
        ensures
            sign@ == self.spec_symbol(),
    {
        proof {
            reveal_strlit("+");
            reveal_strlit("-");
            reveal_strlit("*");
            reveal_strlit("/");
        }
        let sign = match self {
            Operation::Addition => "+",
            Operation::Subtraction => "-",
            Operation::Multiplication => "*",
            Operation::Division => "/",
        };
        assert(sign@ =~= self.spec_symbol());
        sign
    }

    /// Draws one of the four operations, each as likely as the others.
    pub fn random() -> (op: Operation)
        ensures
            exists|index: int| 0 <= index <= 3 && op == Operation::spec_from_index(index),
    {
        let index = draw_inclusive(0, 3);
        Operation::from_index(index)
    }

    /// Maps a drawn index to an operation.
    pub fn from_index(index: i32) -> (op: Operation)
        ensures
            op == Operation::spec_from_index(index as int),
    {
        match index {
            0 => Operation::Addition,
            1 => Operation::Subtraction,
            2 => Operation::Multiplication,
            _ => Operation::Division,
        }
    }
}

} // verus!
