//! Phone number value object.

use vstd::prelude::*;
use vstd::string::StrSliceExecFns;

verus! {

/// A decimal digit.
pub open spec fn is_digit(c: char) -> bool {
    '0' <= c && c <= '9'
}

/// A character a phone number may carry besides digits.
pub open spec fn is_phone_symbol(c: char) -> bool {
    c == '+' || c == '-' || c == ' ' || c == '(' || c == ')'
}

/// The number of decimal digits in a string.
pub open spec fn digit_count(s: Seq<char>) -> nat
    decreases s.len(),
{
    if s.len() == 0 {
        0
    } else {
        digit_count(s.drop_last()) + (if is_digit(s.last()) { 1nat } else { 0nat })
    }
}

/// A string makes a well-formed phone number when it carries at least one
/// digit or phone symbol and at least seven digits overall; since digits are
/// themselves phone characters, the latter implies the former.
pub open spec fn spec_phone_ok(s: Seq<char>) -> bool {
    digit_count(s) >= 7
}

/// Whether a string holds any digit or phone symbol at all.
pub open spec fn has_phone_char(s: Seq<char>) -> bool {
    exists|i: int| 0 <= i < s.len() && (is_digit(#[trigger] s[i]) || is_phone_symbol(s[i]))
}

/// A string with a digit holds a phone character.
proof fn lemma_digits_are_phone_chars(s: Seq<char>)
    ensures
        digit_count(s) > 0 ==> has_phone_char(s),
    decreases s.len(),
{
    if s.len() > 0 && digit_count(s) > 0 {
        if is_digit(s.last()) {
            assert(is_digit(s[s.len() - 1]) || is_phone_symbol(s[s.len() - 1]));
        } else {
            lemma_digits_are_phone_chars(s.drop_last());
            let w = choose|w: int|
                0 <= w < s.drop_last().len() && (is_digit(#[trigger] s.drop_last()[w])
                    || is_phone_symbol(s.drop_last()[w]));
            assert(is_digit(s[w]) || is_phone_symbol(s[w]));
        }
    }
}

/// A validated phone number. Digits are the ASCII decimal digits.
#[derive(Debug, Clone, PartialEq, Eq, Hash)]
pub struct PhoneNumber(String);

impl View for PhoneNumber {
    type V = Seq<char>;

    closed spec fn view(&self) -> Seq<char> {
        self.0@
    }
}

impl PhoneNumber {
    /// Create a new phone number with basic validation: the number must hold
    /// at least one digit or phone symbol, and at least seven digits. The
    /// number is stored as given.
    pub fn new(number: String) -> (r: Result<Self, String>)
        ensures
            match r {
                Ok(p) => spec_phone_ok(number@) && p@ == number@,
                Err(m) => !spec_phone_ok(number@) && m@ == if !has_phone_char(number@) {
                    "Phone number cannot be empty"@
                } else {
                    "Phone number must have at least 7 digits"@
                },
            },
    {
        let s = number.as_str();
        let n = s.unicode_len();
        let mut digits: usize = 0;
        let mut any: bool = false;
        for i in 0..n
            invariant
                n == s@.len(),
                s@ == number@,
                digits == digit_count(s@.subrange(0, i as int)),
                digits <= i,
                any == has_phone_char(s@.subrange(0, i as int)),
        {
            let c = s.get_char(i);
            let ghost pre = s@.subrange(0, i as int);
            let is_d = '0' <= c && c <= '9';
            let is_sym = c == '+' || c == '-' || c == ' ' || c == '(' || c == ')';
            if is_d {
                digits = digits + 1;
            }
            if is_d || is_sym {
                any = true;
            }
            proof {
                let cur = s@.subrange(0, i + 1);
                assert(cur.drop_last() =~= pre);
                assert(cur.last() == c);
                if has_phone_char(pre) {
                    let w = choose|w: int|
                        0 <= w < pre.len() && (is_digit(#[trigger] pre[w]) || is_phone_symbol(
                            pre[w],
                        ));
                    assert(is_digit(cur[w]) || is_phone_symbol(cur[w]));
                }
                if is_d || is_sym {
                    assert(is_digit(cur[i as int]) || is_phone_symbol(cur[i as int]));
                }
            }
        }
        proof {
            assert(s@.subrange(0, s@.len() as int) =~= s@);
            lemma_digits_are_phone_chars(s@);
        }
        if !any {
            return Err("Phone number cannot be empty".to_owned());
        }
        if digits < 7 {
            return Err("Phone number must have at least 7 digits".to_owned());
        }
        Ok(PhoneNumber(number))
    }

    /// Get the phone number as a string.
    pub fn as_str(&self) -> (r: &str)
        ensures
            r@ == self@,
    {
        self.0.as_str()
    }
}

} // verus!
