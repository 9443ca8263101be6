//! The complex number type: its sign operations and its text form.

use vstd::prelude::*;
use vstd::std_specs::ops::NegSpecImpl;
use vstd::string::StringExecFns;
use crate::binary64::{encodes_zero, is_zero, lemma_negated_twice, negate, negated, ONE, ZERO};

verus! {

/// A complex number with real part `r` and imaginary part `i`. Each part is
/// the encoding of a binary64 value; any two encodings make a number, so
/// there is nothing to validate.
#[derive(Clone, Copy, Debug)]
pub struct Complex {
    /// The real part.
    pub r: u64,
    /// The imaginary part.
    pub i: u64,
}

impl Complex {
    /// The number with the same real part and the opposite imaginary part.
    pub open spec fn conjugated(self) -> Complex {
        Complex { r: self.r, i: negated(self.i) }
    }

    /// The number with both parts negated.
    pub open spec fn opposite(self) -> Complex {
        Complex { r: negated(self.r), i: negated(self.i) }
    }

    /// The imaginary unit as a value of the model.
    pub open spec fn unit() -> Complex {
        Complex { r: ZERO, i: ONE }
    }

    /// The imaginary unit: real part zero, imaginary part one.
    pub fn imaginary_unit() -> (out: Complex)
        ensures
            out == Complex::unit(),
    {
        Complex { r: ZERO, i: ONE }
    }

    /// The complex conjugate.
    pub fn conjugate(self) -> (out: Complex)
        ensures
            out == self.conjugated(),
    {
        Complex { r: self.r, i: negate(self.i) }
    }

    /// The text of the number, given the numerals of its two parts.
    ///
    /// With a zero imaginary part it is the real numeral alone. Otherwise,
    /// with a zero real part, it is the imaginary numeral alone, and carries
    /// no mark that it is imaginary: a pure imaginary number reads like a real
    /// one. Otherwise it is `(R + NI)`, for the real numeral `R` and the
    /// imaginary numeral `N`, whose own sign is all the sign there is.
    pub open spec fn text(self, r: Seq<char>, i: Seq<char>) -> Seq<char> {
        if encodes_zero(self.i) {
            r
        } else if encodes_zero(self.r) {
            i
        } else {
            seq!['('] + r + seq![' ', '+', ' '] + i + seq!['I', ')']
        }
    }

    /// Lays the number out as text. `r` and `i` are the numerals of the real
    /// and the imaginary part, which the caller renders.
    pub fn to_text(&self, r: &str, i: &str) -> (out: String)
        ensures
            out@ == self.text(r@, i@),
    {
        if is_zero(self.i) {
            r.to_owned()
        } else if is_zero(self.r) {
            i.to_owned()
        } else {
            proof {
                reveal_strlit("(");
                reveal_strlit(" + ");
                reveal_strlit("I)");
            }
            let mut out = String::new();
            out.append("(");
            out.append(r);
            out.append(" + ");
            out.append(i);
            out.append("I)");
            assert(out@ =~= self.text(r@, i@));
            out
        }
    }
}

/// Conjugating a number twice gives the number back, part for part and bit
/// for bit.
pub proof fn lemma_conjugate_twice(c: Complex)
    ensures
        c.conjugated().conjugated() == c,
{
    lemma_negated_twice(c.i);
}

impl core::ops::Neg for Complex {
    type Output = Complex;

    fn neg(self) -> (out: Complex) {
        Complex { r: negate(self.r), i: negate(self.i) }
    }
}

impl NegSpecImpl for Complex {
    open spec fn obeys_neg_spec() -> bool {
        true
    }

    open spec fn neg_req(self) -> bool {
        true
    }

    open spec fn neg_spec(self) -> Complex {
        self.opposite()
    }
}

} // verus!
