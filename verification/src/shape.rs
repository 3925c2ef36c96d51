//! Two-dimensional extents of a tensor, and how they are written out.

use crate::error::TensorError;
use vstd::prelude::*;
use vstd::string::StringExecFns;

verus! {

/// Number of bytes one element occupies on the device: a 32-bit float.
pub const ELEMENT_BYTES: usize = 4;

/// The extent of a tensor. Only rectangular 2-D extents can be written down.
#[derive(Clone, Copy, Debug, PartialEq, Eq, Structural)]
pub enum Shape {
    /// `D2(rows, cols)`.
    D2(usize, usize),
}

/// The character that stands for a single decimal digit.
pub open spec fn digit_char(d: nat) -> char
    recommends
        d < 10,
{
    if d == 0 {
        '0'
    } else if d == 1 {
        '1'
    } else if d == 2 {
        '2'
    } else if d == 3 {
        '3'
    } else if d == 4 {
        '4'
    } else if d == 5 {
        '5'
    } else if d == 6 {
        '6'
    } else if d == 7 {
        '7'
    } else if d == 8 {
        '8'
    } else {
        '9'
    }
}

/// The decimal numeral of `n`, most significant digit first, without leading
/// zeros; zero is written `0`.
pub open spec fn decimal(n: nat) -> Seq<char>
    decreases n,
{
    if n < 10 {
        seq![digit_char(n)]
    } else {
        decimal(n / 10).push(digit_char(n % 10))
    }
}

/// Appends the decimal numeral of `n` to `out`.
pub fn push_decimal(out: &mut String, n: usize)
    ensures
        final(out)@ == old(out)@ + decimal(n as nat),
    decreases n,
{
    if n >= 10 {
        push_decimal(out, n / 10);
    }
    let d: usize = n % 10;
    proof {
        reveal_strlit("0");
        reveal_strlit("1");
        reveal_strlit("2");
        reveal_strlit("3");
        reveal_strlit("4");
        reveal_strlit("5");
        reveal_strlit("6");
        reveal_strlit("7");
        reveal_strlit("8");
        reveal_strlit("9");
    }
    let digit: &str = if d == 0 {
        "0"
    } else if d == 1 {
        "1"
    } else if d == 2 {
        "2"
    } else if d == 3 {
        "3"
    } else if d == 4 {
        "4"
    } else if d == 5 {
        "5"
    } else if d == 6 {
        "6"
    } else if d == 7 {
        "7"
    } else if d == 8 {
        "8"
    } else {
        "9"
    };
    assert(digit@ =~= seq![digit_char(d as nat)]);
    out.append(digit);
    assert(final(out)@ =~= old(out)@ + decimal(n as nat));
}

impl Shape {
    /// Number of rows.
    pub open spec fn spec_rows(self) -> nat {
        match self {
            Shape::D2(i, _) => i as nat,
        }
    }

    /// Number of columns.
    pub open spec fn spec_cols(self) -> nat {
        match self {
            Shape::D2(_, j) => j as nat,
        }
    }

    /// Number of elements, as a mathematical integer.
    pub open spec fn spec_size(self) -> nat {
        self.spec_rows() * self.spec_cols()
    }

    /// Number of bytes the elements occupy, as a mathematical integer.
    pub open spec fn spec_bytes(self) -> nat {
        self.spec_size() * 4
    }

    /// What `to_string` writes: `Shape::D2(rows, cols)` with decimal numerals.
    pub open spec fn spec_to_string(self) -> Seq<char> {
        "Shape::D2("@ + decimal(self.spec_rows()) + ", "@ + decimal(self.spec_cols()) + ")"@
    }

    /// Number of rows.
    pub fn rows(&self) -> (n: usize)
        ensures
            n == self.spec_rows(),
    {
        match self {
            Shape::D2(i, _) => *i,
        }
    }

    /// Number of columns.
    pub fn cols(&self) -> (n: usize)
        ensures
            n == self.spec_cols(),
    {
        match self {
            Shape::D2(_, j) => *j,
        }
    }

    /// The shape with the given list of dimensions: exactly two are accepted,
    /// rows first.
    pub fn from_dims(dims: &Vec<usize>) -> (result: Result<Shape, TensorError>)
        ensures
            dims@.len() == 2 ==> result == Ok::<Shape, TensorError>(Shape::D2(dims@[0], dims@[1])),
            dims@.len() != 2 ==> result == Err::<Shape, TensorError>(
                TensorError::UnsupportedRank,
            ),
    {
        if dims.len() == 2 {
            Ok(Shape::D2(dims[0], dims[1]))
        } else {
            Err(TensorError::UnsupportedRank)
        }
    }

    /// The text `Shape::D2(rows, cols)`.
    pub fn to_string(&self) -> (text: String)
        ensures
            text@ == self.spec_to_string(),
    {
        let mut text = String::from_str("Shape::D2(");
        push_decimal(&mut text, self.rows());
        text.append(", ");
        push_decimal(&mut text, self.cols());
        text.append(")");
        text
    }

    /// Number of elements. The product must fit in a `usize`.
    pub fn size(&self) -> (n: usize)
        requires
            self.spec_size() <= usize::MAX,
        ensures
            n == self.spec_size(),
    {
        match self {
            Shape::D2(i, j) => *i * *j,
        }
    }

    /// Number of elements, or `None` where the product does not fit in a `usize`.
    pub fn checked_size(&self) -> (n: Option<usize>)
        ensures
            self.spec_size() <= usize::MAX ==> n == Some(self.spec_size() as usize),
            self.spec_size() > usize::MAX ==> n.is_none(),
    {
        self.rows().checked_mul(self.cols())
    }

    /// Number of bytes of the elements, or `None` where it does not fit in a
    /// `usize`.
    pub fn checked_bytes(&self) -> (n: Option<usize>)
        ensures
            self.spec_bytes() <= usize::MAX ==> n == Some(self.spec_bytes() as usize),
            self.spec_bytes() > usize::MAX ==> n.is_none(),
    {
        match self.checked_size() {
            Some(count) => count.checked_mul(ELEMENT_BYTES),
            None => None,
        }
    }
}

} // verus!
