//! Text rendering of a matrix: `"{"`, the rows joined by `", "`, each row
//! its elements joined by a single space, then `"}"`. A 2×2 result with
//! entries 58, 64, 139, 154 renders as `"{58 64, 139 154}"`.

use vstd::arithmetic::mul::{lemma_mul_inequality, lemma_mul_is_distributive_add_other_way};
use vstd::prelude::*;
use vstd::string::StringExecFns;

use crate::matrix::Matrix;

verus! {

/// The decimal digit character for a value below ten.
pub open spec fn digit_char(d: nat) -> char {
    if d == 0 {
        '0'
    } else if d == 1 {
        '1'
    } else if d == 2 {
        '2'
    } else if d == 3 {
        '3'
    } else if d == 4 {
        '4'
    } else if d == 5 {
        '5'
    } else if d == 6 {
        '6'
    } else if d == 7 {
        '7'
    } else if d == 8 {
        '8'
    } else {
        '9'
    }
}

/// The decimal digits of a natural number, most significant first, with
/// no leading zeros except for the number zero itself.
pub open spec fn dec_chars(n: nat) -> Seq<char>
    decreases n,
{
    if n < 10 {
        seq![digit_char(n)]
    } else {
        dec_chars(n / 10) + seq![digit_char(n % 10)]
    }
}

/// The decimal rendering of an integer: a leading minus sign for negative
/// values, then the digits of the magnitude.
pub open spec fn int_chars(v: int) -> Seq<char> {
    if v < 0 {
        seq!['-'] + dec_chars((-v) as nat)
    } else {
        dec_chars(v as nat)
    }
}

/// The digit character of a value below ten, as a one-character string.
fn digit_str(d: u64) -> (r: &'static str)
    requires
        d < 10,
    ensures
        r@ == seq![digit_char(d as nat)],
{
    if d == 0 {
        proof {
            reveal_strlit("0");
        }
        assert("0"@ =~= seq![digit_char(0)]);
        "0"
    } else if d == 1 {
        proof {
            reveal_strlit("1");
        }
        assert("1"@ =~= seq![digit_char(1)]);
        "1"
    } else if d == 2 {
        proof {
            reveal_strlit("2");
        }
        assert("2"@ =~= seq![digit_char(2)]);
        "2"
    } else if d == 3 {
        proof {
            reveal_strlit("3");
        }
        assert("3"@ =~= seq![digit_char(3)]);
        "3"
    } else if d == 4 {
        proof {
            reveal_strlit("4");
        }
        assert("4"@ =~= seq![digit_char(4)]);
        "4"
    } else if d == 5 {
        proof {
            reveal_strlit("5");
        }
        assert("5"@ =~= seq![digit_char(5)]);
        "5"
    } else if d == 6 {
        proof {
            reveal_strlit("6");
        }
        assert("6"@ =~= seq![digit_char(6)]);
        "6"
    } else if d == 7 {
        proof {
            reveal_strlit("7");
        }
        assert("7"@ =~= seq![digit_char(7)]);
        "7"
    } else if d == 8 {
        proof {
            reveal_strlit("8");
        }
        assert("8"@ =~= seq![digit_char(8)]);
        "8"
    } else {
        proof {
            reveal_strlit("9");
        }
        assert("9"@ =~= seq![digit_char(9)]);
        "9"
    }
}

/// The decimal string of a natural machine number.
fn u64_dec_string(n: u64) -> (r: String)
    ensures
        r@ == dec_chars(n as nat),
    decreases n,
{
    if n < 10 {
        String::from_str(digit_str(n))
    } else {
        let mut s = u64_dec_string(n / 10);
        s.append(digit_str(n % 10));
        assert(s@ =~= dec_chars(n as nat));
        s
    }
}

/// The decimal string of a signed element, with a minus sign for negative
/// values.
fn i64_dec_string(v: i64) -> (r: String)
    ensures
        r@ == int_chars(v as int),
{
    if v >= 0 {
        u64_dec_string(v as u64)
    } else {
        let mag: u64 = (-(v + 1)) as u64 + 1;
        assert(mag == -(v as int));
        let mut s = String::from_str("-");
        let tail = u64_dec_string(mag);
        s.append(tail.as_str());
        proof {
            reveal_strlit("-");
        }
        assert(s@ =~= int_chars(v as int));
        s
    }
}

impl Matrix {
    /// The first `j` elements of row `i`, joined by single spaces.
    pub open spec fn row_prefix_chars(&self, i: int, j: int) -> Seq<char>
        decreases j,
    {
        if j <= 0 {
            Seq::empty()
        } else if j == 1 {
            int_chars(self.entry(i, 0) as int)
        } else {
            self.row_prefix_chars(i, j - 1) + seq![' '] + int_chars(self.entry(i, j - 1) as int)
        }
    }

    /// Row `i` rendered: its elements joined by single spaces.
    pub open spec fn row_chars(&self, i: int) -> Seq<char> {
        self.row_prefix_chars(i, self.col as int)
    }

    /// The first `i` rendered rows, joined by `", "`.
    pub open spec fn body_prefix_chars(&self, i: int) -> Seq<char>
        decreases i,
    {
        if i <= 0 {
            Seq::empty()
        } else if i == 1 {
            self.row_chars(0)
        } else {
            self.body_prefix_chars(i - 1) + seq![',', ' '] + self.row_chars(i - 1)
        }
    }

    /// The full rendering: the joined rows between braces.
    pub open spec fn render_chars(&self) -> Seq<char> {
        seq!['{'] + self.body_prefix_chars(self.row as int) + seq!['}']
    }

    /// Renders the matrix as text: `"{"`, the rows joined by `", "`, each
    /// row its elements joined by a single space, then `"}"`.
    pub fn render(&self) -> (r: String)
        requires
            self.wf(),
        ensures
            r@ == self.render_chars(),
    {
        let len = self.data.len();
        let mut s = String::from_str("{");
        proof {
            reveal_strlit("{");
            reveal_strlit("}");
            reveal_strlit(", ");
            reveal_strlit(" ");
        }
        assert(s@ =~= seq!['{'] + self.body_prefix_chars(0) + Seq::<char>::empty());
        let mut i: usize = 0;
        while i < self.row
            invariant
                self.wf(),
                len == self.data@.len(),
                i <= self.row,
                ", "@ == seq![',', ' '],
                " "@ == seq![' '],
                "}"@ == seq!['}'],
                s@ == seq!['{'] + self.body_prefix_chars(i as int) + (if 0 < i && i < self.row {
                    seq![',', ' ']
                } else {
                    Seq::<char>::empty()
                }),
            decreases self.row - i,
        {
            let ghost s0 = s@;
            proof {
                lemma_mul_inequality(i as int + 1, self.row as int, self.col as int);
                lemma_mul_is_distributive_add_other_way(self.col as int, i as int, 1);
            }
            let mut j: usize = 0;
            while j < self.col
                invariant
                    self.wf(),
                    len == self.data@.len(),
                    i < self.row,
                    j <= self.col,
                    " "@ == seq![' '],
                    (i + 1) * self.col <= self.row * self.col,
                    (i + 1) * self.col == i * self.col + self.col,
                    s@ == s0 + self.row_prefix_chars(i as int, j as int) + (if 0 < j && j
                        < self.col {
                        seq![' ']
                    } else {
                        Seq::<char>::empty()
                    }),
                decreases self.col - j,
            {
                let e = self.data[i * self.col + j];
                let es = i64_dec_string(e);
                s.append(es.as_str());
                assert(s@ =~= s0 + self.row_prefix_chars(i as int, j as int + 1));
                if j + 1 < self.col {
                    s.append(" ");
                    assert(s@ =~= s0 + self.row_prefix_chars(i as int, j as int + 1) + seq![' ']);
                }
                j = j + 1;
            }
            assert(s@ =~= seq!['{'] + self.body_prefix_chars(i as int + 1));
            if i + 1 < self.row {
                s.append(", ");
                assert(s@ =~= seq!['{'] + self.body_prefix_chars(i as int + 1) + seq![',', ' ']);
            }
            i = i + 1;
        }
        s.append("}");
        assert(s@ =~= self.render_chars());
        s
    }
}

} // verus!
