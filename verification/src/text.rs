//! Verified text utilities: decimal parsing and substring search.
//!
//! Network identifiers arrive over the bus as strings and must parse as
//! non-negative integers before any remote call is made; signal strengths
//! arrive as decimal strings that may carry a leading minus; capability
//! flags are matched by substring.  Everything here is specified over the
//! character sequences of the inputs.

use vstd::prelude::*;

verus! {

/// A decimal digit.
pub open spec fn is_digit_char(c: char) -> bool {
    '0' <= c && c <= '9'
}

/// The numeric value of a digit character.
pub open spec fn digit_char_val(c: char) -> int {
    c as int - '0' as int
}

/// Every character of `s` is a decimal digit.
pub open spec fn all_digits(s: Seq<char>) -> bool {
    forall|i: int| 0 <= i < s.len() ==> is_digit_char(#[trigger] s[i])
}

/// The value of `s` read as a base-ten numeral.
pub open spec fn dec_value(s: Seq<char>) -> int
    decreases s.len(),
{
    if s.len() == 0 {
        0
    } else {
        dec_value(s.drop_last()) * 10 + digit_char_val(s.last())
    }
}

/// `s` is a well-formed numeral for a non-negative integer: non-empty and
/// all digits.
pub open spec fn is_dec_numeral(s: Seq<char>) -> bool {
    s.len() > 0 && all_digits(s)
}

/// `s` is a numeral as the unsigned integer parsers accept it: an optional
/// leading plus, then a non-empty run of digits.
pub open spec fn is_unsigned_numeral(s: Seq<char>) -> bool {
    if s.len() > 0 && s[0] == '+' {
        is_dec_numeral(s.subrange(1, s.len() as int))
    } else {
        is_dec_numeral(s)
    }
}

/// The value of an unsigned numeral.
pub open spec fn unsigned_value(s: Seq<char>) -> int {
    if s.len() > 0 && s[0] == '+' {
        dec_value(s.subrange(1, s.len() as int))
    } else {
        dec_value(s)
    }
}

/// `s` is a well-formed signed numeral: an optional leading minus or plus,
/// then a non-empty run of digits.
pub open spec fn is_signed_numeral(s: Seq<char>) -> bool {
    if s.len() > 0 && (s[0] == '-' || s[0] == '+') {
        is_dec_numeral(s.subrange(1, s.len() as int))
    } else {
        is_dec_numeral(s)
    }
}

/// The value of a signed numeral.
pub open spec fn signed_value(s: Seq<char>) -> int {
    if s.len() > 0 && s[0] == '-' {
        -dec_value(s.subrange(1, s.len() as int))
    } else if s.len() > 0 && s[0] == '+' {
        dec_value(s.subrange(1, s.len() as int))
    } else {
        dec_value(s)
    }
}

proof fn lemma_dec_value_nonneg(s: Seq<char>)
    requires
        all_digits(s),
    ensures
        dec_value(s) >= 0,
    decreases s.len(),
{
    if s.len() > 0 {
        assert(all_digits(s.drop_last())) by {
            assert(forall|i: int|
                0 <= i < s.len() - 1 ==> is_digit_char(#[trigger] s.drop_last()[i]));
        }
        lemma_dec_value_nonneg(s.drop_last());
    }
}

/// Extending a digit string on the right can only grow its value.
proof fn lemma_dec_value_prefix_le(s: Seq<char>, i: int)
    requires
        all_digits(s),
        0 <= i <= s.len(),
    ensures
        dec_value(s.subrange(0, i)) <= dec_value(s),
    decreases s.len() - i,
{
    if i < s.len() {
        let t = s.subrange(0, i + 1);
        assert(t.drop_last() =~= s.subrange(0, i));
        assert(t.last() == s[i]);
        assert(all_digits(s.subrange(0, i))) by {
            assert(forall|j: int|
                0 <= j < i ==> is_digit_char(#[trigger] s.subrange(0, i)[j]));
        }
        lemma_dec_value_nonneg(s.subrange(0, i));
        assert(dec_value(s.subrange(0, i)) <= dec_value(t));
        lemma_dec_value_prefix_le(s, i + 1);
    } else {
        assert(s.subrange(0, i) =~= s);
    }
}

/// Parses a string of decimal digits as a `usize`.
///
/// Returns `Some` exactly when the string is a non-empty run of digits whose
/// value fits in `usize`; the result is then that value.  This is the
/// fail-fast validation applied to network identifiers before any bus call.
pub fn parse_usize_str(s: &str) -> (r: Option<usize>)
    ensures
        r is Some <==> is_dec_numeral(s@) && dec_value(s@) <= usize::MAX,
        r is Some ==> r->0 == dec_value(s@),
{
    let n = s.unicode_len();
    if n == 0 {
        return None;
    }
    let mut acc: usize = 0;
    let mut i: usize = 0;
    while i < n
        invariant
            0 < n == s@.len(),
            0 <= i <= n,
            all_digits(s@.subrange(0, i as int)),
            acc == dec_value(s@.subrange(0, i as int)),
        decreases n - i,
    {
        let c = s.get_char(i);
        let cv = c as u32;
        if cv < 48 || cv > 57 {
            assert(!is_digit_char(s@[i as int]));
            return None;
        }
        let d = (cv - 48) as usize;
        let ghost pre = s@.subrange(0, i as int);
        let ghost ext = s@.subrange(0, i + 1 as int);
        proof {
            assert(ext.drop_last() =~= pre);
            assert(ext.last() == s@[i as int]);
        }
        if acc > (usize::MAX - d) / 10 {
            proof {
                assert(dec_value(ext) == acc * 10 + d);
                assert(dec_value(ext) > usize::MAX) by (nonlinear_arith)
                    requires
                        acc > (usize::MAX - d) / 10,
                        d <= 9,
                        dec_value(ext) == acc * 10 + d,
                ;
                if all_digits(s@) {
                    lemma_dec_value_prefix_le(s@, i + 1 as int);
                }
            }
            return None;
        }
        proof {
            assert(acc * 10 + d <= usize::MAX) by (nonlinear_arith)
                requires
                    acc <= (usize::MAX - d) / 10,
                    d <= 9,
            ;
        }
        acc = acc * 10 + d;
        i = i + 1;
    }
    proof {
        assert(s@.subrange(0, n as int) =~= s@);
    }
    Some(acc)
}

/// Parses a numeral as `usize`, accepting exactly the strings the
/// unsigned integer parsers do: an optional leading plus, then a non-empty
/// run of digits whose value fits.  Network identifiers are validated this
/// way before any bus call.
pub fn parse_unsigned_str(s: &str) -> (r: Option<usize>)
    ensures
        r is Some <==> is_unsigned_numeral(s@) && unsigned_value(s@) <= usize::MAX,
        r is Some ==> r->0 == unsigned_value(s@),
{
    let n = s.unicode_len();
    if n > 0 {
        let c0 = s.get_char(0);
        if c0 as u32 == 43 {
            assert(s@[0] == '+');
            let rest = s.substring_char(1, n);
            assert(rest@ =~= s@.subrange(1, s@.len() as int));
            return parse_usize_str(rest);
        }
        assert(s@[0] != '+');
    }
    parse_usize_str(s)
}

/// Parses a decimal string with an optional leading minus or plus as an
/// `i32`.
///
/// Returns `Some` exactly when the string is a well-formed signed numeral
/// whose value fits in `i32`; the result is then that value.  Signal
/// strengths such as `"-55"` are read this way.
pub fn parse_i32_str(s: &str) -> (r: Option<i32>)
    ensures
        r is Some <==> is_signed_numeral(s@) && i32::MIN <= signed_value(s@) <= i32::MAX,
        r is Some ==> r->0 == signed_value(s@),
{
    let n = s.unicode_len();
    if n == 0 {
        return None;
    }
    let c0 = s.get_char(0);
    if c0 as u32 == 45 {
        assert(s@[0] == '-');
        let rest = s.substring_char(1, n);
        assert(rest@ =~= s@.subrange(1, s@.len() as int));
        match parse_usize_str(rest) {
            Option::Some(v) => {
                proof {
                    if is_dec_numeral(rest@) {
                        lemma_dec_value_nonneg(rest@);
                    }
                }
                // -v must fit in i32: v <= 2^31
                if v <= 0x8000_0000usize {
                    let r: i32 = if v == 0x8000_0000usize {
                        i32::MIN
                    } else {
                        -((v as i32))
                    };
                    Some(r)
                } else {
                    None
                }
            },
            Option::None => None,
        }
    } else if c0 as u32 == 43 {
        assert(s@[0] == '+');
        let rest = s.substring_char(1, n);
        assert(rest@ =~= s@.subrange(1, s@.len() as int));
        match parse_usize_str(rest) {
            Option::Some(v) => {
                proof {
                    if is_dec_numeral(rest@) {
                        lemma_dec_value_nonneg(rest@);
                    }
                }
                if v <= i32::MAX as usize {
                    Some(v as i32)
                } else {
                    None
                }
            },
            Option::None => None,
        }
    } else {
        assert(s@[0] != '-' && s@[0] != '+');
        match parse_usize_str(s) {
            Option::Some(v) => {
                proof {
                    if is_dec_numeral(s@) {
                        lemma_dec_value_nonneg(s@);
                    }
                }
                if v <= i32::MAX as usize {
                    Some(v as i32)
                } else {
                    None
                }
            },
            Option::None => None,
        }
    }
}

/// `p` occurs in `s` as a contiguous run.
pub open spec fn has_substring(s: Seq<char>, p: Seq<char>) -> bool {
    exists|i: int| 0 <= i && i + p.len() <= s.len() && #[trigger] s.subrange(i, i + p.len()) == p
}

/// Whether the two strings hold the same characters.
pub fn str_eq(a: &str, b: &str) -> (r: bool)
    ensures
        r == (a@ == b@),
{
    let na = a.unicode_len();
    let nb = b.unicode_len();
    if na != nb {
        assert(a@ != b@);
        return false;
    }
    let mut i: usize = 0;
    while i < na
        invariant
            na == a@.len() == b@.len(),
            0 <= i <= na,
            forall|j: int| 0 <= j < i ==> a@[j] == b@[j],
        decreases na - i,
    {
        if s_char_ne(a.get_char(i), b.get_char(i)) {
            assert(a@ != b@);
            return false;
        }
        i = i + 1;
    }
    assert(a@ =~= b@);
    true
}

/// Character inequality through the scalar values.
fn s_char_ne(x: char, y: char) -> (r: bool)
    ensures
        r == (x != y),
{
    x as u32 != y as u32
}

/// Whether `pat` occurs in `hay` as a substring.
///
/// Capability-flag fields such as `"[WPA2-PSK-CCMP][CURRENT]"` are matched
/// this way.
pub fn str_contains(hay: &str, pat: &str) -> (r: bool)
    ensures
        r == has_substring(hay@, pat@),
{
    let nh = hay.unicode_len();
    let np = pat.unicode_len();
    if np > nh {
        assert(!has_substring(hay@, pat@));
        return false;
    }
    if np == 0 {
        proof {
            assert(hay@.subrange(0, 0 + pat@.len() as int) =~= pat@);
        }
        return true;
    }
    let mut i: usize = 0;
    while i <= nh - np
        invariant
            1 <= np <= nh,
            nh == hay@.len(),
            np == pat@.len(),
            0 <= i <= nh - np + 1,
            forall|k: int|
                0 <= k < i ==> #[trigger] hay@.subrange(k, k + pat@.len()) != pat@,
        decreases nh - i,
    {
        let mut j: usize = 0;
        let mut hit = true;
        while j < np
            invariant
                np <= nh,
                nh == hay@.len(),
                np == pat@.len(),
                0 <= i <= nh - np,
                0 <= j <= np,
                hit ==> forall|t: int| 0 <= t < j ==> hay@[i + t] == pat@[t],
                !hit ==> hay@.subrange(i as int, i + pat@.len()) != pat@,
            decreases np - j,
        {
            if s_char_ne(hay.get_char(i + j), pat.get_char(j)) {
                proof {
                    let w = hay@.subrange(i as int, i + pat@.len());
                    assert(w[j as int] == hay@[i + j]);
                }
                hit = false;
                j = np;
            } else {
                j = j + 1;
            }
        }
        if hit {
            proof {
                let w = hay@.subrange(i as int, i + pat@.len());
                assert(forall|t: int| 0 <= t < np ==> w[t] == hay@[i + t]);
                assert(w =~= pat@);
            }
            return true;
        }
        i = i + 1;
    }
    proof {
        assert(forall|k: int|
            0 <= k && k + pat@.len() <= hay@.len() ==> #[trigger] hay@.subrange(
                k,
                k + pat@.len(),
            ) != pat@);
    }
    false
}

/// Strips a trailing `".monitor"` from a device name, as sound backends
/// report monitor sources under the base device's name with that suffix.
pub fn clean_device_name(name: &str) -> (r: String)
    ensures
        (name@.len() >= 8 && name@.subrange(name@.len() - 8, name@.len() as int)
            == ".monitor"@) ==> r@ == name@.subrange(0, name@.len() - 8),
        !(name@.len() >= 8 && name@.subrange(name@.len() - 8, name@.len() as int)
            == ".monitor"@) ==> r@ == name@,
{
    let suffix = ".monitor";
    proof {
        reveal_strlit(".monitor");
    }
    let n = name.unicode_len();
    if n >= 8 {
        let tail = name.substring_char(n - 8, n);
        if str_eq(tail, suffix) {
            let head = name.substring_char(0, n - 8);
            return head.to_owned();
        }
    }
    name.to_owned()
}

} // verus!
