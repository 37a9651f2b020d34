use vstd::prelude::*;

verus! {

/// Whether a counter value sits on a milestone: a positive multiple of ten.
/// Zero is excluded on purpose — a freshly reset counter is not itself "at
/// milestone".
pub open spec fn spec_is_milestone(n: int) -> bool {
    n % 10 == 0 && n > 0
}

/// The next multiple of ten at or above `n`.  A value already on a multiple
/// of ten — including zero — is returned unchanged.
pub open spec fn spec_next_milestone(n: int) -> int {
    if n % 10 == 0 {
        n
    } else {
        n + (10 - n % 10)
    }
}

/// A standalone counter with milestone queries.  It holds one number and
/// nothing else.
pub struct Counter {
    /// The stored number.
    pub number: u128,
}

impl Counter {
    /// A fresh counter, starting at zero.
    pub fn new() -> (c: Counter)
        ensures
            c.number == 0,
    {
        Counter { number: 0 }
    }

    /// Gets the stored number.
    pub fn number(&self) -> (n: u128)
        ensures
            n == self.number,
    {
        self.number
    }

    /// Overwrites the stored number with a caller-chosen value.
    pub fn set_number(&mut self, new_number: u128)
        ensures
            final(self).number == new_number,
    {
        self.number = new_number;
    }

    /// Multiplies the stored number by a caller-chosen value.
    pub fn mul_number(&mut self, new_number: u128)
        requires
            new_number * old(self).number <= u128::MAX,
        ensures
            final(self).number == new_number * old(self).number,
    {
        self.set_number(new_number * self.number);
    }

    /// Adds a caller-chosen value to the stored number.
    pub fn add_number(&mut self, new_number: u128)
        requires
            new_number + old(self).number <= u128::MAX,
        ensures
            final(self).number == new_number + old(self).number,
    {
        self.set_number(new_number + self.number);
    }

    /// Increments the stored number by one.
    pub fn increment(&mut self)
        requires
            old(self).number < u128::MAX,
        ensures
            final(self).number == old(self).number + 1,
    {
        let number = self.number;
        self.set_number(number + 1);
    }

    /// Increments the stored number by a caller-chosen amount.
    pub fn increment_by(&mut self, amount: u128)
        requires
            old(self).number + amount <= u128::MAX,
        ensures
            final(self).number == old(self).number + amount,
    {
        let number = self.number;
        self.set_number(number + amount);
    }

    /// Resets the stored number to zero.
    pub fn reset(&mut self)
        ensures
            final(self).number == 0,
    {
        self.number = 0;
    }

    /// Whether the stored number is a positive multiple of ten.
    pub fn is_multiple_of_ten(&self) -> (r: bool)
        ensures
            r == spec_is_milestone(self.number as int),
    {
        let number = self.number;
        number % 10 == 0 && number > 0
    }

    /// The next multiple of ten at or above the stored number; the number
    /// itself when it already is one, zero included.
    pub fn next_milestone(&self) -> (m: u128)
        requires
            spec_next_milestone(self.number as int) <= u128::MAX,
        ensures
            m == spec_next_milestone(self.number as int),
    {
        let number = self.number;
        let remainder = number % 10;
        if remainder == 0 {
            number
        } else {
            number + (10 - remainder)
        }
    }
}

} // verus!
