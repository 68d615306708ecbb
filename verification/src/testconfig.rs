//! The settings of a drill: the ranges that operands are drawn from and the
//! length of a test.

use vstd::prelude::*;

verus! {

/// `n` can be held in an `i32`.
pub open spec fn fits_i32(n: int) -> bool {
    i32::MIN <= n <= i32::MAX
}

/// The ranges for the operands of additions and of multiplications, each with
/// both ends included, and the length of a test in seconds.
///
/// Subtractions are drawn from the addition ranges and divisions from the
/// multiplication ranges.
#[derive(Clone, Copy, Debug, PartialEq, Eq, Structural)]
pub struct TestConfig {
    pub add_min_a: i32,
    pub add_max_a: i32,
    pub add_min_b: i32,
    pub add_max_b: i32,
    pub mul_min_a: i32,
    pub mul_max_a: i32,
    pub mul_min_b: i32,
    pub mul_max_b: i32,
    pub time_limit: u64,
}

impl TestConfig {
    /// The settings that a session starts with.
    pub open spec fn spec_default() -> TestConfig {
        TestConfig {
            add_min_a: 2,
            add_max_a: 100,
            add_min_b: 2,
            add_max_b: 100,
            mul_min_a: 2,
            mul_max_a: 12,
            mul_min_b: 2,
            mul_max_b: 100,
            time_limit: 120,
        }
    }

    /// No range has its lower end above its upper end.
    pub open spec fn ranges_ordered(self) -> bool {
        &&& self.add_min_a <= self.add_max_a
        &&& self.add_min_b <= self.add_max_b
        &&& self.mul_min_a <= self.mul_max_a
        &&& self.mul_min_b <= self.mul_max_b
    }

    /// The least divisor that a division may have: the lower end of the second
    /// multiplication range, raised to 1 where it lies below.
    pub open spec fn divisor_min(self) -> int {
        if self.mul_min_b < 1 {
            1
        } else {
            self.mul_min_b as int
        }
    }

    /// A question of every kind can be drawn: each range holds a number, the
    /// range of divisors too, and no sum or product of two operands leaves
    /// the 32-bit integers.
    pub open spec fn generable(self) -> bool {
        &&& self.ranges_ordered()
        &&& self.divisor_min() <= self.mul_max_b
        &&& fits_i32(self.add_min_a + self.add_min_b)
        &&& fits_i32(self.add_max_a + self.add_max_b)
        &&& fits_i32(self.mul_min_a * self.mul_min_b)
        &&& fits_i32(self.mul_min_a * self.mul_max_b)
        &&& fits_i32(self.mul_max_a * self.mul_min_b)
        &&& fits_i32(self.mul_max_a * self.mul_max_b)
    }

    /// The seconds that are left of a test `elapsed` seconds after its start.
    pub open spec fn spec_remaining_after(self, elapsed: u64) -> u64 {
        if elapsed >= self.time_limit {
            0
        } else {
            (self.time_limit - elapsed) as u64
        }
    }

    /// The setting at place `index` of the menu, as the menu shows it: the
    /// eight range ends, then the time limit cut to 32 bits; 0 at any other
    /// place.
    pub open spec fn spec_get(self, index: int) -> i32 {
        if index == 0 {
            self.add_min_a
        } else if index == 1 {
            self.add_max_a
        } else if index == 2 {
            self.add_min_b
        } else if index == 3 {
            self.add_max_b
        } else if index == 4 {
            self.mul_min_a
        } else if index == 5 {
            self.mul_max_a
        } else if index == 6 {
            self.mul_min_b
        } else if index == 7 {
            self.mul_max_b
        } else if index == 8 {
            self.time_limit as i32
        } else {
            0
        }
    }

    /// These settings with `value` at place `index` of the menu; the settings
    /// themselves where the menu has no setting at that place.
    pub open spec fn spec_set(self, index: int, value: i32) -> TestConfig {
        if index == 0 {
            TestConfig { add_min_a: value, ..self }
        } else if index == 1 {
            TestConfig { add_max_a: value, ..self }
        } else if index == 2 {
            TestConfig { add_min_b: value, ..self }
        } else if index == 3 {
            TestConfig { add_max_b: value, ..self }
        } else if index == 4 {
            TestConfig { mul_min_a: value, ..self }
        } else if index == 5 {
            TestConfig { mul_max_a: value, ..self }
        } else if index == 6 {
            TestConfig { mul_min_b: value, ..self }
        } else if index == 7 {
            TestConfig { mul_max_b: value, ..self }
        } else if index == 8 {
            TestConfig { time_limit: value as u64, ..self }
        } else {
            self
        }
    }

    /// Reads the setting at place `index` of the menu.
    pub fn get(&self, index: usize) -> (value: i32)
        ensures
            value == self.spec_get(index as int),
    {
        match index {
            0 => self.add_min_a,
            1 => self.add_max_a,
            2 => self.add_min_b,
            3 => self.add_max_b,
            4 => self.mul_min_a,
            5 => self.mul_max_a,
            6 => self.mul_min_b,
            7 => self.mul_max_b,
            8 => #[verifier::truncate]
            (self.time_limit as i32),
            _ => 0,
        }
    }

    /// Stores `value` at place `index` of the menu, unchecked; does nothing
    /// where the menu has no setting at that place.
    pub fn set(&mut self, index: usize, value: i32)
        ensures
            *final(self) == old(self).spec_set(index as int, value),
    {
        match index {
            0 => self.add_min_a = value,
            1 => self.add_max_a = value,
            2 => self.add_min_b = value,
            3 => self.add_max_b = value,
            4 => self.mul_min_a = value,
            5 => self.mul_max_a = value,
            6 => self.mul_min_b = value,
            7 => self.mul_max_b = value,
            8 => self.time_limit = #[verifier::truncate]
            (value as u64),
            _ => {},
        }
    }

    /// Tells whether a question of every kind can be drawn from these
    /// settings.
    pub fn is_generable(&self) -> (yes: bool)
        ensures
            yes == self.generable(),
    {
        let divisor_min: i32 = if self.mul_min_b < 1 {
            1
        } else {
            self.mul_min_b
        };
        let ordered = self.add_min_a <= self.add_max_a && self.add_min_b <= self.add_max_b
            && self.mul_min_a <= self.mul_max_a && self.mul_min_b <= self.mul_max_b
            && divisor_min <= self.mul_max_b;
        let low_sum: i64 = self.add_min_a as i64 + self.add_min_b as i64;
        let high_sum: i64 = self.add_max_a as i64 + self.add_max_b as i64;
        ordered && in_i32(low_sum) && in_i32(high_sum) && in_i32(
            product(self.mul_min_a, self.mul_min_b),
        ) && in_i32(product(self.mul_min_a, self.mul_max_b)) && in_i32(
            product(self.mul_max_a, self.mul_min_b),
        ) && in_i32(product(self.mul_max_a, self.mul_max_b))
    }

    /// The seconds that are left of a test `elapsed` seconds after its start:
    /// the time limit less `elapsed`, and 0 once the limit is reached.
    pub fn remaining_after(&self, elapsed: u64) -> (left: u64)
        ensures
            left == self.spec_remaining_after(elapsed),
    {
        if elapsed >= self.time_limit {
            0
        } else {
            self.time_limit - elapsed
        }
    }
}

impl Default for TestConfig {
    /// The settings that a session starts with: operands of additions from 2
    /// to 100, factors from 2 to 12 and from 2 to 100, and 120 seconds.
    fn default() -> (config: TestConfig)
        ensures
            config == TestConfig::spec_default(),
            config.ranges_ordered(),
            config.generable(),
    {
        TestConfig {
            add_min_a: 2,
            add_max_a: 100,
            add_min_b: 2,
            add_max_b: 100,
            mul_min_a: 2,
            mul_max_a: 12,
            mul_min_b: 2,
            mul_max_b: 100,
            time_limit: 120,
        }
    }
}

/// Tells whether `n` can be held in an `i32`.
fn in_i32(n: i64) -> (yes: bool)
    ensures
        yes == fits_i32(n as int),
{
    -2147483648 <= n && n <= 2147483647
}

/// The product of two 32-bit integers, which 64 bits always hold.
fn product(x: i32, y: i32) -> (p: i64)
    ensures
        p == x * y,
{
    assert(-0x4000_0000_0000_0000 <= x * y <= 0x4000_0000_0000_0000) by (nonlinear_arith)
        requires
            -0x8000_0000 <= x <= 0x8000_0000,
            -0x8000_0000 <= y <= 0x8000_0000,
    ;
    x as i64 * y as i64
}

/// The product of two numbers lies between the least and the greatest of the
/// four products of the ends of any two ranges that hold them.
pub proof fn lemma_product_between_corners(a: int, b: int, lo_a: int, hi_a: int, lo_b: int, hi_b: int)
    requires
        lo_a <= a <= hi_a,
        lo_b <= b <= hi_b,
        fits_i32(lo_a * lo_b),
        fits_i32(lo_a * hi_b),
        fits_i32(hi_a * lo_b),
        fits_i32(hi_a * hi_b),
    ensures
        fits_i32(a * b),
{
    // With `a` fixed the product is linear in `b`, so it lies between its
    // values at the two ends of `b`; each of those is linear in `a`.
    assert(fits_i32(a * lo_b)) by (nonlinear_arith)
        requires
            lo_a <= a <= hi_a,
            fits_i32(lo_a * lo_b),
            fits_i32(hi_a * lo_b),
    ;
    assert(fits_i32(a * hi_b)) by (nonlinear_arith)
        requires
            lo_a <= a <= hi_a,
            fits_i32(lo_a * hi_b),
            fits_i32(hi_a * hi_b),
    ;
    assert(fits_i32(a * b)) by (nonlinear_arith)
        requires
            lo_b <= b <= hi_b,
            fits_i32(a * lo_b),
            fits_i32(a * hi_b),
    ;
}

/// The settings that a session starts with have every range in order, and a
/// question of every kind can be drawn from them.
pub proof fn lemma_default_is_generable()
    ensures
        TestConfig::spec_default().ranges_ordered(),
        TestConfig::spec_default().generable(),
{
}

/// At the start of a test, with no second elapsed, the whole time limit is
/// left.
pub proof fn lemma_nothing_elapsed_leaves_limit(config: TestConfig)
    ensures
        config.spec_remaining_after(0) == config.time_limit,
{
}

/// Once as many seconds as the time limit have elapsed, nothing is left; and
/// only then.
pub proof fn lemma_time_is_up_at_limit(config: TestConfig, elapsed: u64)
    ensures
        config.spec_remaining_after(elapsed) == 0 <==> elapsed >= config.time_limit,
        config.spec_remaining_after(elapsed) <= config.time_limit,
{
}

} // verus!
