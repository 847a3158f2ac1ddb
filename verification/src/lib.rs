//! Validation of Taiwan national identification card numbers.
//!
//! A well-formed identifier is ten characters long: one uppercase letter,
//! one gender/category digit (`1` or `2`), and eight further decimal digits,
//! the last of which is a check digit.  Validation uppercases the input,
//! checks the shape, and recomputes the check digit from a weighted sum of
//! the letter's assigned value and the middle digits.

use vstd::prelude::*;
use vstd::string::StrSliceExecFns;

verus! {

/// True for the uppercase ASCII letters `A`..=`Z`.
pub open spec fn is_upper_letter(c: char) -> bool {
    'A' <= c && c <= 'Z'
}

/// True for the lowercase ASCII letters `a`..=`z`.
pub open spec fn is_lower_letter(c: char) -> bool {
    'a' <= c && c <= 'z'
}

/// True for the decimal digits `0`..=`9`.
pub open spec fn is_decimal_digit(c: char) -> bool {
    '0' <= c && c <= '9'
}

/// Numeric value of a decimal digit character.
pub open spec fn digit_value(c: char) -> int {
    c as int - '0' as int
}

/// Uppercases one character: `a`..=`z` map to `A`..=`Z`, everything else is
/// left unchanged.
pub open spec fn to_upper(c: char) -> char {
    if is_lower_letter(c) {
        (c as u8 - 32) as char
    } else {
        c
    }
}

/// The case-normalized form of a string: every character uppercased.
pub open spec fn normalized(s: Seq<char>) -> Seq<char> {
    s.map_values(|c: char| to_upper(c))
}

/// The single-digit value assigned to each uppercase letter by the national
/// numbering scheme (the units digit of the letter's two-digit code).
/// Letters outside `A`..=`Z` contribute zero.
pub open spec fn letter_value(c: char) -> int {
    match c {
        'A' => 1,
        'B' => 0,
        'C' => 9,
        'D' => 8,
        'E' => 7,
        'F' => 6,
        'G' => 5,
        'H' => 4,
        'I' => 9,
        'J' => 3,
        'K' => 2,
        'L' => 2,
        'M' => 1,
        'N' => 0,
        'O' => 8,
        'P' => 9,
        'Q' => 8,
        'R' => 7,
        'S' => 6,
        'T' => 5,
        'U' => 4,
        'V' => 3,
        'W' => 1,
        'X' => 3,
        'Y' => 2,
        'Z' => 0,
        _ => 0,
    }
}

/// Positional weight of slot `i` of the multiplier sequence
/// `[8, 7, 6, 5, 4, 3, 2, 1]`, applied to characters 1 through 8.
pub open spec fn multiplier(i: int) -> int {
    8 - i
}

/// Weighted sum of the letter value and characters 1 through `n`, each digit
/// multiplied by its positional weight.
pub open spec fn weighted_sum(s: Seq<char>, n: int) -> int
    decreases n,
{
    if n <= 0 {
        letter_value(s[0])
    } else {
        weighted_sum(s, n - 1) + digit_value(s[n]) * multiplier(n - 1)
    }
}

/// The check digit demanded by the first nine characters: the weighted sum
/// over characters 0 through 8 taken modulo 10, then subtracted from 10
/// (with remainder 0 demanding check digit 0).
pub open spec fn expected_check_digit(s: Seq<char>) -> int {
    let rem = weighted_sum(s, 8) % 10;
    if rem == 0 {
        0
    } else {
        10 - rem
    }
}

/// Shape of a (case-normalized) identifier: exactly ten characters, one
/// uppercase letter, then `1` or `2`, then eight decimal digits.
pub open spec fn valid_format_spec(s: Seq<char>) -> bool {
    &&& s.len() == 10
    &&& is_upper_letter(s[0])
    &&& (s[1] == '1' || s[1] == '2')
    &&& forall|i: int| 2 <= i < 10 ==> is_decimal_digit(#[trigger] s[i])
}

/// A (case-normalized) string is a valid identifier when it has the right
/// shape and its final digit equals the check digit computed from the rest.
pub open spec fn valid_id(s: Seq<char>) -> bool {
    valid_format_spec(s) && digit_value(s[9]) == expected_check_digit(s)
}

/// Uppercases one character, as `to_upper` describes.
fn upper_char(c: char) -> (u: char)
    ensures
        u == to_upper(c),
{
    if 'a' <= c && c <= 'z' {
        (c as u8 - 32) as char
    } else {
        c
    }
}

/// Looks up the value assigned to the leading letter, as `letter_value`
/// describes; characters outside `A`..=`Z` fall back to zero.
fn letter_value_of(c: char) -> (v: i32)
    ensures
        v as int == letter_value(c),
        0 <= v <= 9,
{
    match c {
        'A' => 1,
        'B' => 0,
        'C' => 9,
        'D' => 8,
        'E' => 7,
        'F' => 6,
        'G' => 5,
        'H' => 4,
        'I' => 9,
        'J' => 3,
        'K' => 2,
        'L' => 2,
        'M' => 1,
        'N' => 0,
        'O' => 8,
        'P' => 9,
        'Q' => 8,
        'R' => 7,
        'S' => 6,
        'T' => 5,
        'U' => 4,
        'V' => 3,
        'W' => 1,
        'X' => 3,
        'Y' => 2,
        'Z' => 0,
        _ => 0,
    }
}

/// Checks that the (already case-normalized) characters have the shape of an
/// identifier: ten characters, an uppercase letter, `1` or `2`, then eight
/// decimal digits.
pub fn valid_format(id_chars: &[char]) -> (r: bool)
    ensures
        r == valid_format_spec(id_chars@),
{
    if id_chars.len() != 10 {
        return false;
    }
    let c0 = id_chars[0];
    if !('A' <= c0 && c0 <= 'Z') {
        return false;
    }
    let c1 = id_chars[1];
    if !(c1 == '1' || c1 == '2') {
        return false;
    }
    let mut i: usize = 2;
    while i < 10
        invariant
            2 <= i <= 10,
            id_chars@.len() == 10,
            forall|j: int| 2 <= j < i ==> is_decimal_digit(#[trigger] id_chars@[j]),
        decreases 10 - i,
    {
        let c = id_chars[i];
        if !('0' <= c && c <= '9') {
            return false;
        }
        i += 1;
    }
    true
}

/// Computes the check digit demanded by the first nine characters, as
/// `expected_check_digit` describes: the letter value plus each of the
/// characters 1 through 8 times its positional weight, reduced modulo 10 and
/// subtracted from 10.
pub fn calculate_check_sum(id_chars: &[char]) -> (r: i32)
    requires
        id_chars@.len() >= 9,
        forall|i: int| 1 <= i < 9 ==> is_decimal_digit(#[trigger] id_chars@[i]),
    ensures
        r as int == expected_check_digit(id_chars@),
        0 <= r <= 9,
{
    let mut sum: i32 = letter_value_of(id_chars[0]);
    let mut i: usize = 1;
    while i < 9
        invariant
            1 <= i <= 9,
            id_chars@.len() >= 9,
            forall|j: int| 1 <= j < 9 ==> is_decimal_digit(#[trigger] id_chars@[j]),
            sum as int == weighted_sum(id_chars@, i - 1),
            0 <= sum <= 9 + 72 * (i - 1),
        decreases 9 - i,
    {
        let d: i32 = (id_chars[i] as u32 as i32) - 48;
        let m: i32 = 9 - (i as i32);
        assert(d * m == digit_value(id_chars@[i as int]) * multiplier(i - 1)
            && 0 <= d * m <= 72) by (nonlinear_arith)
            requires
                0 <= d <= 9,
                1 <= m <= 8,
                d == digit_value(id_chars@[i as int]),
                m == multiplier(i - 1),
        ;
        sum = sum + d * m;
        i += 1;
    }
    let rem = sum % 10;
    if rem == 0 {
        0
    } else {
        10 - rem
    }
}

/// Collects the characters of `s` in case-normalized form.
fn normalized_chars(s: &str) -> (v: Vec<char>)
    ensures
        v@ == normalized(s@),
{
    let n = s.unicode_len();
    let mut v: Vec<char> = Vec::new();
    let mut i: usize = 0;
    while i < n
        invariant
            0 <= i <= n,
            n == s@.len(),
            v@.len() == i,
            forall|j: int| 0 <= j < i ==> v@[j] == to_upper(#[trigger] s@[j]),
        decreases n - i,
    {
        let c = s.get_char(i);
        v.push(upper_char(c));
        i += 1;
    }
    assert(v@ =~= normalized(s@));
    v
}

/// Validates a Taiwan national identification card number.
///
/// Returns `true` exactly when the input, uppercased, is ten characters of
/// the shape letter / `1`-or-`2` / eight digits, and its final digit equals
/// the check digit computed from the first nine characters.  Every other
/// input — empty, too short, too long, wrongly shaped, or with a wrong check
/// digit — yields `false`.
pub fn national_id_valid(identity_card_number: &str) -> (r: bool)
    ensures
        r == valid_id(normalized(identity_card_number@)),
{
    let id_chars = normalized_chars(identity_card_number);
    if !valid_format(id_chars.as_slice()) {
        return false;
    }
    let check_digit: i32 = (id_chars[9] as u32 as i32) - 48;
    let expected = calculate_check_sum(id_chars.as_slice());
    expected == check_digit
}

/// Any string of the wrong length is rejected: case normalization keeps the
/// length, so an input of other than ten characters can never validate.
pub proof fn lemma_invalid_length(s: Seq<char>)
    requires
        s.len() != 10,
    ensures
        !valid_id(normalized(s)),
{
}

/// Any string of the wrong shape is rejected: if the first character is not
/// a letter (of either case), or the second is not `1` or `2`, or one of the
/// last eight characters is not a decimal digit, the input can never
/// validate.
pub proof fn lemma_invalid_shape(s: Seq<char>)
    requires
        (s.len() >= 1 && !is_upper_letter(s[0]) && !is_lower_letter(s[0]))
        || (s.len() >= 2 && s[1] != '1' && s[1] != '2')
        || exists|i: int| s.len() - 8 <= i < s.len() && !is_decimal_digit(#[trigger] s[i]),
    ensures
        !valid_id(normalized(s)),
{
    if s.len() == 10 {
        if s.len() >= 1 && !is_upper_letter(s[0]) && !is_lower_letter(s[0]) {
            assert(normalized(s)[0] == to_upper(s[0]));
            assert(!is_upper_letter(normalized(s)[0]));
        } else if s.len() >= 2 && s[1] != '1' && s[1] != '2' {
            assert(normalized(s)[1] == to_upper(s[1]));
            assert(normalized(s)[1] != '1' && normalized(s)[1] != '2');
        } else {
            let i = choose|i: int|
                s.len() - 8 <= i < s.len() && !is_decimal_digit(#[trigger] s[i]);
            assert(normalized(s)[i] == to_upper(s[i]));
            assert(!is_decimal_digit(normalized(s)[i]));
        }
    }
}

/// Case-insensitivity: validating the case-normalized copy of a string
/// always agrees with validating the string itself, because normalization
/// is idempotent.
pub proof fn lemma_case_insensitive(s: Seq<char>, t: Seq<char>)
    requires
        t == normalized(s),
    ensures
        valid_id(normalized(t)) == valid_id(normalized(s)),
{
    assert(normalized(t) =~= normalized(s));
}

/// Validation is a pure function of the input: any two results that satisfy
/// `national_id_valid`'s contract for the same string are equal, so
/// re-validating a string always yields the same answer.
pub proof fn lemma_revalidation_stable(s: Seq<char>, r1: bool, r2: bool)
    requires
        r1 == valid_id(normalized(s)),
        r2 == valid_id(normalized(s)),
    ensures
        r1 == r2,
{
}

} // verus!
