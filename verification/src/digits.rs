//! Decimal digit strings: the specification of their numeric value and
//! verified parsing and rendering helpers shared by amounts, timestamps and
//! page counters.

use vstd::prelude::*;
use vstd::string::StrSliceExecFns;
use vstd::string::StringExecFns;

verus! {

/// A decimal digit character.
pub open spec fn is_digit(c: char) -> bool {
    48 <= c as u32 <= 57
}

/// Numeric value of a digit character.
pub open spec fn digit_val(c: char) -> nat {
    (c as u32 - 48) as nat
}

/// Every character of `s` is a decimal digit.
pub open spec fn all_digits(s: Seq<char>) -> bool {
    forall|i: int| 0 <= i < s.len() ==> is_digit(s[i])
}

/// Numeric value of a digit string, most significant digit first.
pub open spec fn dec_value(s: Seq<char>) -> nat
    decreases s.len(),
{
    if s.len() == 0 {
        0
    } else {
        dec_value(s.drop_last()) * 10 + digit_val(s.last())
    }
}

/// Extending a digit-string prefix by one character multiplies its value by
/// ten and adds the new digit.
pub proof fn lemma_dec_value_take_succ(s: Seq<char>, i: int)
    requires
        0 <= i < s.len(),
    ensures
        dec_value(s.take(i + 1)) == dec_value(s.take(i)) * 10 + digit_val(s[i]),
{
    assert(s.take(i + 1).drop_last() =~= s.take(i));
    assert(s.take(i + 1).last() == s[i]);
}

/// The value of a digit string never drops when more digits are appended.
pub proof fn lemma_dec_value_take_mono(s: Seq<char>, i: int, j: int)
    requires
        0 <= i <= j <= s.len(),
    ensures
        dec_value(s.take(i)) <= dec_value(s.take(j)),
    decreases j - i,
{
    if i < j {
        lemma_dec_value_take_mono(s, i, j - 1);
        lemma_dec_value_take_succ(s, j - 1);
    }
}

/// Tests whether a character is a decimal digit.
pub fn is_digit_char(c: char) -> (r: bool)
    ensures
        r == is_digit(c),
{
    let u = c as u32;
    48 <= u && u <= 57
}

/// Numeric value of a digit character.
pub fn digit_of(c: char) -> (r: u8)
    requires
        is_digit(c),
    ensures
        r == digit_val(c),
{
    (c as u32 - 48) as u8
}

/// Parses a digit string into a `u64`.
///
/// Returns `Some` exactly on non-empty all-digit strings whose value fits;
/// the result is then the string's numeric value.
pub fn parse_u64(s: &str) -> (r: Option<u64>)
    ensures
        r is Some <==> s@.len() > 0 && all_digits(s@) && dec_value(s@) <= u64::MAX,
        r matches Some(v) ==> v == dec_value(s@),
{
    let len = s.unicode_len();
    if len == 0 {
        return None;
    }
    let mut val: u64 = 0;
    let mut i: usize = 0;
    while i < len
        invariant
            i <= len,
            len == s@.len(),
            all_digits(s@.take(i as int)),
            val == dec_value(s@.take(i as int)),
        decreases len - i,
    {
        let c = s.get_char(i);
        if !is_digit_char(c) {
            assert(!all_digits(s@));
            return None;
        }
        let d = digit_of(c);
        if val > (u64::MAX - d as u64) / 10 {
            proof {
                lemma_dec_value_take_succ(s@, i as int);
                assert(dec_value(s@.take(i as int + 1)) > u64::MAX) by {
                    assert(val * 10 + d as u64 > u64::MAX) by (nonlinear_arith)
                        requires
                            val > (u64::MAX - d as u64) / 10,
                            d <= 9,
                    ;
                };
                lemma_dec_value_take_mono(s@, i as int + 1, len as int);
                assert(s@.take(len as int) =~= s@);
            }
            return None;
        }
        proof {
            lemma_dec_value_take_succ(s@, i as int);
            assert(val * 10 + d as u64 <= u64::MAX) by (nonlinear_arith)
                requires
                    val <= (u64::MAX - d as u64) / 10,
                    d <= 9,
            ;
            assert(all_digits(s@.take(i as int + 1)));
        }
        val = val * 10 + d as u64;
        i += 1;
    }
    proof {
        assert(s@.take(len as int) =~= s@);
    }
    Some(val)
}

/// A digit string that parses as a 32-bit counter.
pub open spec fn u32_str_ok(s: Seq<char>) -> bool {
    s.len() > 0 && all_digits(s) && dec_value(s) <= u32::MAX
}

/// Parses a digit string into a `u32`.
pub fn parse_u32(s: &str) -> (r: Option<u32>)
    ensures
        r is Some <==> u32_str_ok(s@),
        r matches Some(v) ==> v == dec_value(s@),
{
    match parse_u64(s) {
        Some(v) => if v <= u32::MAX as u64 {
            Some(v as u32)
        } else {
            None
        },
        None => None,
    }
}

/// Decimal rendering of a natural number, without leading zeros.
pub open spec fn digit_char(d: nat) -> char {
    ((d + 48) as u8) as char
}

/// Canonical decimal rendering of `n`: no leading zeros, `0` itself as "0".
pub open spec fn dec_str_of(n: nat) -> Seq<char>
    decreases n,
{
    if n < 10 {
        seq![digit_char(n)]
    } else {
        dec_str_of(n / 10).push(digit_char(n % 10))
    }
}

/// One-character string for a single decimal digit.
fn digit_str(d: u8) -> (r: &'static str)
    requires
        d < 10,
    ensures
        r@ =~= seq![digit_char(d as nat)],
{
    proof {
        reveal_strlit("0");
        reveal_strlit("1");
        reveal_strlit("2");
        reveal_strlit("3");
        reveal_strlit("4");
        reveal_strlit("5");
        reveal_strlit("6");
        reveal_strlit("7");
        reveal_strlit("8");
        reveal_strlit("9");
    }
    match d {
        0 => "0",
        1 => "1",
        2 => "2",
        3 => "3",
        4 => "4",
        5 => "5",
        6 => "6",
        7 => "7",
        8 => "8",
        _ => "9",
    }
}

/// Renders `n` as its canonical decimal string.
pub fn u64_to_string(n: u64) -> (r: String)
    ensures
        r@ == dec_str_of(n as nat),
    decreases n,
{
    if n < 10 {
        digit_str(n as u8).to_owned()
    } else {
        assert(n / 10 < n) by (nonlinear_arith)
            requires
                n >= 10,
        ;
        let mut s = u64_to_string(n / 10);
        s.append(digit_str((n % 10) as u8));
        proof {
            assert(dec_str_of((n / 10) as nat).push(digit_char((n % 10) as nat)) =~= dec_str_of(
                (n / 10) as nat,
            ) + seq![digit_char((n % 10) as nat)]);
        }
        s
    }
}

/// A canonical decimal string: non-empty, all digits, and no leading zero
/// unless the string is exactly "0".
pub open spec fn is_canonical_dec(s: Seq<char>) -> bool {
    &&& s.len() > 0
    &&& all_digits(s)
    &&& s.len() > 1 ==> s[0] != '0'
}

/// Strips leading zeros, keeping at least one digit.
pub open spec fn canon_dec(s: Seq<char>) -> Seq<char>
    decreases s.len(),
{
    if s.len() > 1 && s[0] == '0' {
        canon_dec(s.skip(1))
    } else {
        s
    }
}

/// A leading zero does not change a digit string's value.
proof fn lemma_zero_prefix_value(t: Seq<char>)
    ensures
        dec_value(seq!['0'].add(t)) == dec_value(t),
    decreases t.len(),
{
    if t.len() == 0 {
        assert(seq!['0'].add(t) =~= seq!['0']);
        assert(dec_value(seq!['0']) == dec_value(seq!['0'].drop_last()) * 10 + digit_val('0'));
        assert(seq!['0'].drop_last() =~= Seq::<char>::empty());
        assert(digit_val('0') == 0);
    } else {
        assert(seq!['0'].add(t).drop_last() =~= seq!['0'].add(t.drop_last()));
        lemma_zero_prefix_value(t.drop_last());
        assert(seq!['0'].add(t).last() == t.last());
    }
}

/// Stripping leading zeros yields a canonical string with the same value.
pub proof fn lemma_canon_dec(s: Seq<char>)
    requires
        s.len() > 0,
        all_digits(s),
    ensures
        is_canonical_dec(canon_dec(s)),
        dec_value(canon_dec(s)) == dec_value(s),
    decreases s.len(),
{
    if s.len() > 1 && s[0] == '0' {
        assert(all_digits(s.skip(1)));
        lemma_canon_dec(s.skip(1));
        assert(seq!['0'].add(s.skip(1)) =~= s);
        lemma_zero_prefix_value(s.skip(1));
    }
}

/// Parsing a canonical decimal string and rendering the result returns the
/// string unchanged: the round trip loses no precision.
pub proof fn lemma_amount_round_trip(s: Seq<char>)
    requires
        is_canonical_dec(s),
    ensures
        canon_dec(s) == s,
{
}

} // verus!
