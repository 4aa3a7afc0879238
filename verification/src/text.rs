//! General-purpose text helpers: decimal rendering of numbers, digit counts,
//! and character-wise string comparisons.

use vstd::prelude::*;

verus! {

/// How many decimal digits a number has; zero has one digit.
pub open spec fn spec_number_length(n: nat) -> nat
    decreases n,
{
    if n < 10 {
        1
    } else {
        1 + spec_number_length(n / 10)
    }
}

/// The character for a single decimal digit.
pub open spec fn digit_char(d: nat) -> char {
    if d == 0 {
        '0'
    } else if d == 1 {
        '1'
    } else if d == 2 {
        '2'
    } else if d == 3 {
        '3'
    } else if d == 4 {
        '4'
    } else if d == 5 {
        '5'
    } else if d == 6 {
        '6'
    } else if d == 7 {
        '7'
    } else if d == 8 {
        '8'
    } else {
        '9'
    }
}

/// The decimal rendering of a number, most significant digit first.
pub open spec fn spec_decimal(n: nat) -> Seq<char>
    decreases n,
{
    if n < 10 {
        seq![digit_char(n)]
    } else {
        spec_decimal(n / 10) + seq![digit_char(n % 10)]
    }
}

pub proof fn lemma_number_length_bounds(n: nat)
    ensures
        spec_number_length(n) >= 1,
        n < 10 ==> spec_number_length(n) == 1,
        n >= 10 ==> spec_number_length(n) <= n,
    decreases n,
{
    if n >= 10 {
        lemma_number_length_bounds(n / 10);
    }
}

/// Powers of ten.
pub open spec fn pow10(k: nat) -> nat
    decreases k,
{
    if k == 0 {
        1
    } else {
        10 * pow10((k - 1) as nat)
    }
}

proof fn lemma_number_length_below_pow10(n: nat, k: nat)
    requires
        k >= 1,
        n < pow10(k),
    ensures
        spec_number_length(n) <= k,
    decreases k,
{
    if n >= 10 {
        assert(pow10(k) == 10 * pow10((k - 1) as nat));
        lemma_number_length_below_pow10(n / 10, (k - 1) as nat);
    }
}

/// A 64-bit number has at most twenty decimal digits.
pub proof fn lemma_number_length_u64(n: u64)
    ensures
        spec_number_length(n as nat) <= 20,
{
    reveal_with_fuel(pow10, 21);
    assert(pow10(20) == 100000000000000000000);
    lemma_number_length_below_pow10(n as nat, 20);
}

/// An 8-bit number has at most three decimal digits.
pub proof fn lemma_number_length_u8(n: u8)
    ensures
        spec_number_length(n as nat) <= 3,
{
    reveal_with_fuel(pow10, 4);
    assert(pow10(3) == 1000);
    lemma_number_length_below_pow10(n as nat, 3);
}

/// The decimal rendering has exactly as many characters as the number has
/// digits.
pub proof fn lemma_decimal_length(n: nat)
    ensures
        spec_decimal(n).len() == spec_number_length(n),
    decreases n,
{
    if n >= 10 {
        lemma_decimal_length(n / 10);
    }
}

/// Gets the length in digits of a number; a value of zero has length one, and
/// the length is never zero.
pub fn number_length(number: u64) -> (length: usize)
    ensures
        length == spec_number_length(number as nat),
        length >= 1,
{
    proof {
        lemma_number_length_bounds(number as nat);
        lemma_number_length_u64(number);
    }
    let ghost original: nat = number as nat;
    let mut number = number;
    let mut length: usize = if number == 0 {
        1
    } else {
        0
    };
    loop
        invariant
            number > 0 ==> length + spec_number_length(number as nat) == spec_number_length(
                original,
            ),
            number == 0 ==> length == spec_number_length(original),
            length <= spec_number_length(original),
            spec_number_length(original) >= 1,
            spec_number_length(original) <= 20,
        ensures
            length == spec_number_length(original),
            length >= 1,
        decreases number,
    {
        if number == 0 {
            break ;
        }
        proof {
            lemma_number_length_bounds(number as nat);
            lemma_number_length_bounds((number / 10) as nat);
        }
        length = length + 1;
        number = number / 10;
    }
    length
}

/// The string for a single decimal digit.
pub fn digit_str(d: u64) -> (r: &'static str)
    requires
        d < 10,
    ensures
        r@ == seq![digit_char(d as nat)],
{
    proof {
        reveal_strlit("0");
        reveal_strlit("1");
        reveal_strlit("2");
        reveal_strlit("3");
        reveal_strlit("4");
        reveal_strlit("5");
        reveal_strlit("6");
        reveal_strlit("7");
        reveal_strlit("8");
        reveal_strlit("9");
    }
    let r: &'static str = if d == 0 {
        "0"
    } else if d == 1 {
        "1"
    } else if d == 2 {
        "2"
    } else if d == 3 {
        "3"
    } else if d == 4 {
        "4"
    } else if d == 5 {
        "5"
    } else if d == 6 {
        "6"
    } else if d == 7 {
        "7"
    } else if d == 8 {
        "8"
    } else {
        "9"
    };
    proof {
        assert(r@ =~= seq![digit_char(d as nat)]);
    }
    r
}

/// Renders a number in decimal, most significant digit first.
pub fn to_decimal(number: u64) -> (r: String)
    ensures
        r@ == spec_decimal(number as nat),
    decreases number,
{
    if number < 10 {
        let mut s = String::new();
        s.append(digit_str(number));
        proof {
            assert(s@ =~= spec_decimal(number as nat));
        }
        s
    } else {
        let mut s = to_decimal(number / 10);
        s.append(digit_str(number % 10));
        proof {
            assert(s@ =~= spec_decimal(number as nat));
        }
        s
    }
}

/// A number under one hundred rendered as exactly two digits, zero-padded.
pub open spec fn spec_two_digits(n: nat) -> Seq<char> {
    if n < 10 {
        seq!['0', digit_char(n)]
    } else {
        spec_decimal(n)
    }
}

/// Renders a number under one hundred as exactly two digits, zero-padded.
pub fn two_digits(number: u64) -> (r: String)
    requires
        number < 100,
    ensures
        r@ == spec_two_digits(number as nat),
        r@.len() == 2,
{
    proof {
        reveal_strlit("0");
    }
    if number < 10 {
        let mut s = String::new();
        s.append("0");
        s.append(digit_str(number));
        proof {
            assert(s@ =~= spec_two_digits(number as nat));
        }
        s
    } else {
        let s = to_decimal(number);
        proof {
            reveal_with_fuel(spec_decimal, 3);
            assert(spec_decimal(number as nat) =~= seq![
                digit_char((number / 10) as nat),
                digit_char((number % 10) as nat),
            ]);
        }
        s
    }
}

/// Compares two string slices character by character.
pub fn str_eq(a: &str, b: &str) -> (r: bool)
    ensures
        r == (a@ == b@),
{
    let a_len = a.unicode_len();
    let b_len = b.unicode_len();
    if a_len != b_len {
        return false;
    }
    let mut i: usize = 0;
    while i < a_len
        invariant
            a_len == a@.len(),
            b_len == b@.len(),
            a_len == b_len,
            i <= a_len,
            forall|j: int| 0 <= j < i ==> a@[j] == b@[j],
        decreases a_len - i,
    {
        if a.get_char(i) != b.get_char(i) {
            return false;
        }
        i = i + 1;
    }
    proof {
        assert(a@ =~= b@);
    }
    true
}

/// Whether one sequence of characters starts with another.
pub open spec fn spec_starts_with(s: Seq<char>, prefix: Seq<char>) -> bool {
    s.len() >= prefix.len() && s.subrange(0, prefix.len() as int) == prefix
}

/// Checks whether a string slice starts with another, character by character.
pub fn starts_with(s: &str, prefix: &str) -> (r: bool)
    ensures
        r == spec_starts_with(s@, prefix@),
{
    let s_len = s.unicode_len();
    let p_len = prefix.unicode_len();
    if s_len < p_len {
        return false;
    }
    let mut i: usize = 0;
    while i < p_len
        invariant
            s_len == s@.len(),
            p_len == prefix@.len(),
            p_len <= s_len,
            i <= p_len,
            forall|j: int| 0 <= j < i ==> s@[j] == prefix@[j],
        decreases p_len - i,
    {
        if s.get_char(i) != prefix.get_char(i) {
            proof {
                assert(s@.subrange(0, prefix@.len() as int)[i as int] != prefix@[i as int]);
            }
            return false;
        }
        i = i + 1;
    }
    proof {
        assert(s@.subrange(0, prefix@.len() as int) =~= prefix@);
    }
    true
}

/// Copies a range of characters of a string slice into an owned string.
pub fn substring(s: &str, from: usize, to: usize) -> (r: String)
    requires
        from <= to <= s@.len(),
    ensures
        r@ == s@.subrange(from as int, to as int),
{
    let piece = s.substring_char(from, to);
    String::from_str(piece)
}

} // verus!
