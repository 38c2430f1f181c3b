//! The digits a cell can hold.
use vstd::prelude::*;

verus! {

/// A Sudoku digit, one to nine.
#[derive(Debug, Clone, Copy, PartialEq, Eq, Structural)]
pub enum Value {
    One,
    Two,
    Three,
    Four,
    Five,
    Six,
    Seven,
    Eight,
    Nine,
}

/// The character that writes the digit `d` (meaningful for `1 <= d <= 9`).
pub open spec fn digit_char(d: nat) -> char {
    if d == 1 {
        '1'
    } else if d == 2 {
        '2'
    } else if d == 3 {
        '3'
    } else if d == 4 {
        '4'
    } else if d == 5 {
        '5'
    } else if d == 6 {
        '6'
    } else if d == 7 {
        '7'
    } else if d == 8 {
        '8'
    } else {
        '9'
    }
}

impl Value {
    /// The digit as a number.
    pub open spec fn digit(self) -> nat {
        match self {
            Value::One => 1,
            Value::Two => 2,
            Value::Three => 3,
            Value::Four => 4,
            Value::Five => 5,
            Value::Six => 6,
            Value::Seven => 7,
            Value::Eight => 8,
            Value::Nine => 9,
        }
    }

    /// The value whose digit is `n`.
    pub open spec fn of_digit(n: nat) -> Value
        recommends
            1 <= n <= 9,
    {
        if n == 1 {
            Value::One
        } else if n == 2 {
            Value::Two
        } else if n == 3 {
            Value::Three
        } else if n == 4 {
            Value::Four
        } else if n == 5 {
            Value::Five
        } else if n == 6 {
            Value::Six
        } else if n == 7 {
            Value::Seven
        } else if n == 8 {
            Value::Eight
        } else {
            Value::Nine
        }
    }

    /// Every value's digit lies in `1..=9`, and the digit determines the value.
    pub proof fn lemma_digit_round_trip(self)
        ensures
            1 <= self.digit() <= 9,
            Value::of_digit(self.digit()) == self,
    {
    }

    /// Converting a digit in `1..=9` to a value and back gives the digit.
    pub proof fn lemma_of_digit_round_trip(n: nat)
        requires
            1 <= n <= 9,
        ensures
            Value::of_digit(n).digit() == n,
    {
    }

    /// The value for the number `n`, which must be a digit from one to nine.
    pub fn from_usize(n: usize) -> (v: Value)
        requires
            1 <= n <= 9,
        ensures
            v.digit() == n,
            v == Value::of_digit(n as nat),
    {
        match n {
            1 => Value::One,
            2 => Value::Two,
            3 => Value::Three,
            4 => Value::Four,
            5 => Value::Five,
            6 => Value::Six,
            7 => Value::Seven,
            8 => Value::Eight,
            _ => Value::Nine,
        }
    }

    /// The digit of this value as a number.
    pub fn to_usize(self) -> (n: usize)
        ensures
            n == self.digit(),
            1 <= n <= 9,
    {
        match self {
            Value::One => 1,
            Value::Two => 2,
            Value::Three => 3,
            Value::Four => 4,
            Value::Five => 5,
            Value::Six => 6,
            Value::Seven => 7,
            Value::Eight => 8,
            Value::Nine => 9,
        }
    }

    /// The digit written as text, for display on a cell.
    pub fn to_string(&self) -> (s: String)
        ensures
            s@ == seq![digit_char(self.digit())],
    {
        let lit = match self {
            Value::One => "1",
            Value::Two => "2",
            Value::Three => "3",
            Value::Four => "4",
            Value::Five => "5",
            Value::Six => "6",
            Value::Seven => "7",
            Value::Eight => "8",
            Value::Nine => "9",
        };
        proof {
            reveal_strlit("1");
            reveal_strlit("2");
            reveal_strlit("3");
            reveal_strlit("4");
            reveal_strlit("5");
            reveal_strlit("6");
            reveal_strlit("7");
            reveal_strlit("8");
            reveal_strlit("9");
        }
        let s = lit.to_owned();
        assert(s@ =~= seq![digit_char(self.digit())]);
        s
    }
}

} // verus!
