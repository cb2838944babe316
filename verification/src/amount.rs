//! Token amounts as exact decimal integers.
//!
//! On-chain token amounts routinely exceed the 64-bit range, so an amount is
//! kept as its canonical decimal digit string and never squeezed through a
//! native numeric type: parsing and rendering are exact for every magnitude.

use vstd::prelude::*;
use vstd::string::StrSliceExecFns;
use crate::digits::all_digits;
use crate::digits::canon_dec;
use crate::digits::dec_value;
use crate::digits::is_canonical_dec;
use crate::digits::is_digit_char;
use crate::digits::lemma_canon_dec;
use crate::domain::ErrView;
use crate::domain::Error;

verus! {

/// Stripping the leading zeros of a digit string is taking its suffix from
/// the first significant digit.
proof fn lemma_canon_subrange(s: Seq<char>, i: int)
    requires
        0 <= i < s.len(),
        forall|j: int| 0 <= j < i ==> s[j] == '0',
        i == s.len() - 1 || s[i] != '0',
    ensures
        canon_dec(s) =~= s.subrange(i, s.len() as int),
    decreases i,
{
    if i == 0 {
        assert(s.subrange(0, s.len() as int) =~= s);
    } else {
        assert(s[0] == '0');
        lemma_canon_subrange(s.skip(1), i - 1);
        assert(s.skip(1).subrange(i - 1, s.skip(1).len() as int) =~= s.subrange(
            i,
            s.len() as int,
        ));
    }
}

/// An exact unsigned decimal amount of arbitrary magnitude.
#[derive(Debug, PartialEq, Eq)]
pub struct Amount {
    digits: String,
}

impl View for Amount {
    type V = Seq<char>;

    /// The canonical digit string the amount renders as.
    closed spec fn view(&self) -> Seq<char> {
        self.digits@
    }
}

impl Amount {
    /// The digit string is canonical: non-empty, digits only, no leading
    /// zero unless the amount is exactly zero.
    pub open spec fn wf(&self) -> bool {
        is_canonical_dec(self@)
    }

    /// The numeric value of the amount.
    pub open spec fn value(&self) -> nat {
        dec_value(self@)
    }

    /// Parses a raw decimal-integer string.
    ///
    /// Succeeds exactly on non-empty all-digit strings — there is no upper
    /// bound on the value — and keeps the value exactly, in canonical form.
    pub fn from_dec_str(s: &str) -> (r: Result<Amount, Error>)
        ensures
            r is Ok <==> s@.len() > 0 && all_digits(s@),
            r matches Ok(a) ==> a.wf() && a@ == canon_dec(s@) && a.value() == dec_value(s@),
            r matches Err(e) ==> e@ == ErrView::InvalidAmount(s@),
    {
        let len = s.unicode_len();
        if len == 0 {
            return Err(Error::InvalidAmount(s.to_owned()));
        }
        let mut i: usize = 0;
        while i < len
            invariant
                i <= len,
                len == s@.len(),
                all_digits(s@.take(i as int)),
            decreases len - i,
        {
            if !is_digit_char(s.get_char(i)) {
                assert(!all_digits(s@));
                return Err(Error::InvalidAmount(s.to_owned()));
            }
            assert(all_digits(s@.take(i as int + 1)));
            i += 1;
        }
        proof {
            assert(s@.take(len as int) =~= s@);
        }
        let mut start: usize = 0;
        while start + 1 < len && s.get_char(start) == '0'
            invariant
                start < len,
                len == s@.len(),
                forall|j: int| 0 <= j < start ==> s@[j] == '0',
            decreases len - start,
        {
            start += 1;
        }
        proof {
            lemma_canon_subrange(s@, start as int);
            lemma_canon_dec(s@);
        }
        let digits = s.substring_char(start, len).to_owned();
        Ok(Amount { digits })
    }

    /// Renders the amount as its exact decimal string: no separators, no
    /// rounding, no scientific notation.
    pub fn to_dec_string(&self) -> (r: String)
        ensures
            r@ == self@,
    {
        self.digits.clone()
    }
}

} // verus!
