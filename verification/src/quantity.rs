//! Measured quantities as they go on the wire.

use vstd::prelude::*;
use crate::text::{decimal, lemma_decimal_writes};

verus! {

/// Whether `c` is one of the ten decimal digits.
pub open spec fn is_digit(c: char) -> bool {
    '0' <= c && c <= '9'
}

/// Where the longest run of digits of `s` that starts at `i` ends.
pub open spec fn digits_end(s: Seq<char>, i: int) -> int
    decreases s.len() - i,
{
    if 0 <= i < s.len() && is_digit(s[i]) {
        digits_end(s, i + 1)
    } else {
        i
    }
}

/// Where the integer part that starts at `i` ends: a single zero, or a run
/// of digits that starts with another digit. `None` where there is neither.
pub open spec fn integer_end(s: Seq<char>, i: int) -> Option<int> {
    if 0 <= i < s.len() && s[i] == '0' {
        Some(i + 1)
    } else if 0 <= i < s.len() && is_digit(s[i]) {
        Some(digits_end(s, i))
    } else {
        None
    }
}

/// Where the fraction that may start at `i` ends: a point and at least one
/// digit, or nothing. `None` where a point is followed by no digit.
pub open spec fn fraction_end(s: Seq<char>, i: int) -> Option<int> {
    if 0 <= i < s.len() && s[i] == '.' {
        if digits_end(s, i + 1) > i + 1 {
            Some(digits_end(s, i + 1))
        } else {
            None
        }
    } else {
        Some(i)
    }
}

/// Where the digits of an exponent whose letter stands at `i` start: after
/// the letter and the sign that may follow it.
pub open spec fn exponent_digits_start(s: Seq<char>, i: int) -> int {
    if 0 <= i + 1 < s.len() && (s[i + 1] == '+' || s[i + 1] == '-') {
        i + 2
    } else {
        i + 1
    }
}

/// Where the exponent that may start at `i` ends: `e` or `E`, an optional
/// sign and at least one digit, or nothing. `None` where the letter is
/// followed by no digit.
pub open spec fn exponent_end(s: Seq<char>, i: int) -> Option<int> {
    if 0 <= i < s.len() && (s[i] == 'e' || s[i] == 'E') {
        let j = exponent_digits_start(s, i);
        if digits_end(s, j) > j {
            Some(digits_end(s, j))
        } else {
            None
        }
    } else {
        Some(i)
    }
}

/// Where the number that starts at the beginning of `s` ends, by the JSON
/// grammar: an optional minus sign, an integer part, an optional fraction,
/// an optional exponent. `None` where `s` starts with no number.
pub open spec fn number_end(s: Seq<char>) -> Option<int> {
    let start: int = if s.len() > 0 && s[0] == '-' {
        1
    } else {
        0
    };
    match integer_end(s, start) {
        Some(a) => match fraction_end(s, a) {
            Some(b) => exponent_end(s, b),
            None => None,
        },
        None => None,
    }
}

/// Whether `s` is, from its first character to its last, one JSON number.
pub open spec fn is_number(s: Seq<char>) -> bool {
    number_end(s) == Some(s.len() as int)
}

/// Whether `s` can stand for a quantity in a payload: a JSON number, or the
/// word `null` for a reading that is no finite number.
pub open spec fn is_quantity_text(s: Seq<char>) -> bool {
    is_number(s) || s == seq!['n', 'u', 'l', 'l']
}

/// A run of digits that reaches the end of the text ends there.
proof fn lemma_digits_run(s: Seq<char>, i: int)
    requires
        0 <= i <= s.len(),
        forall|j: int| i <= j < s.len() ==> is_digit(#[trigger] s[j]),
    ensures
        digits_end(s, i) == s.len(),
    decreases s.len() - i,
{
    if i < s.len() {
        lemma_digits_run(s, i + 1);
    }
}

/// The decimal numeral of every natural number is a JSON number, and so
/// can stand for a quantity.
pub proof fn lemma_decimal_is_number(n: nat)
    ensures
        is_number(decimal(n)),
        is_quantity_text(decimal(n)),
{
    lemma_decimal_writes(n);
    let s = decimal(n);
    if n != 0 {
        lemma_digits_run(s, 0);
    }
}

fn digit_at(s: &str, n: usize, i: usize) -> (yes: bool)
    requires
        n == s@.len(),
    ensures
        yes == (i < n && is_digit(s@[i as int])),
{
    if i < n {
        let c: char = s.get_char(i);
        '0' <= c && c <= '9'
    } else {
        false
    }
}

fn char_at(s: &str, n: usize, i: usize, c: char) -> (yes: bool)
    requires
        n == s@.len(),
    ensures
        yes == (i < n && s@[i as int] == c),
{
    i < n && s.get_char(i) == c
}

fn scan_digits(s: &str, n: usize, i: usize) -> (end: usize)
    requires
        n == s@.len(),
        i <= n,
    ensures
        end == digits_end(s@, i as int),
        i <= end <= n,
{
    let mut j: usize = i;
    while digit_at(s, n, j)
        invariant
            n == s@.len(),
            i <= j <= n,
            digits_end(s@, i as int) == digits_end(s@, j as int),
        decreases n - j,
    {
        j = j + 1;
    }
    j
}

fn scan_integer(s: &str, n: usize, i: usize) -> (end: Option<usize>)
    requires
        n == s@.len(),
        i <= n,
    ensures
        end is Some == integer_end(s@, i as int) is Some,
        end matches Some(e) ==> integer_end(s@, i as int) == Some(e as int) && e <= n,
{
    if char_at(s, n, i, '0') {
        Some(i + 1)
    } else if digit_at(s, n, i) {
        Some(scan_digits(s, n, i))
    } else {
        None
    }
}

fn scan_fraction(s: &str, n: usize, i: usize) -> (end: Option<usize>)
    requires
        n == s@.len(),
        i <= n,
    ensures
        end is Some == fraction_end(s@, i as int) is Some,
        end matches Some(e) ==> fraction_end(s@, i as int) == Some(e as int) && e <= n,
{
    if char_at(s, n, i, '.') {
        let e: usize = scan_digits(s, n, i + 1);
        if e > i + 1 {
            Some(e)
        } else {
            None
        }
    } else {
        Some(i)
    }
}

fn scan_exponent(s: &str, n: usize, i: usize) -> (end: Option<usize>)
    requires
        n == s@.len(),
        i <= n,
    ensures
        end is Some == exponent_end(s@, i as int) is Some,
        end matches Some(e) ==> exponent_end(s@, i as int) == Some(e as int) && e <= n,
{
    if char_at(s, n, i, 'e') || char_at(s, n, i, 'E') {
        let j: usize = if char_at(s, n, i + 1, '+') || char_at(s, n, i + 1, '-') {
            i + 2
        } else {
            i + 1
        };
        let e: usize = scan_digits(s, n, j);
        if e > j {
            Some(e)
        } else {
            None
        }
    } else {
        Some(i)
    }
}

/// Decides whether `s` is one JSON number.
pub fn check_number(s: &str) -> (yes: bool)
    ensures
        yes == is_number(s@),
{
    let n: usize = s.unicode_len();
    let start: usize = if char_at(s, n, 0, '-') {
        1
    } else {
        0
    };
    match scan_integer(s, n, start) {
        Some(a) => match scan_fraction(s, n, a) {
            Some(b) => match scan_exponent(s, n, b) {
                Some(c) => c == n,
                None => false,
            },
            None => false,
        },
        None => false,
    }
}

fn check_null(s: &str) -> (yes: bool)
    ensures
        yes == (s@ == seq!['n', 'u', 'l', 'l']),
{
    let n: usize = s.unicode_len();
    let yes = n == 4 && s.get_char(0) == 'n' && s.get_char(1) == 'u' && s.get_char(2) == 'l'
        && s.get_char(3) == 'l';
    proof {
        if yes {
            assert(s@ =~= seq!['n', 'u', 'l', 'l']);
        }
    }
    yes
}

/// A measured quantity as the service reads it: the text of a JSON number,
/// or `null` for a reading that is no finite number.
#[derive(Debug, PartialEq, Eq)]
pub struct Quantity {
    text: String,
}

impl View for Quantity {
    type V = Seq<char>;

    /// The text that stands for the quantity in a payload.
    closed spec fn view(&self) -> Seq<char> {
        self.text@
    }
}

impl Clone for Quantity {
    fn clone(&self) -> (copy: Self)
        ensures
            copy@ == self@,
    {
        proof {
            use_type_invariant(self);
        }
        Quantity { text: self.text.clone() }
    }
}

impl Quantity {
    #[verifier::type_invariant]
    spec fn well_formed(self) -> bool {
        is_quantity_text(self.text@)
    }

    /// Takes `text` as a quantity where it is a JSON number or `null`, and
    /// refuses every other text.
    pub fn from_json(text: &str) -> (quantity: Option<Quantity>)
        ensures
            quantity is Some <==> is_quantity_text(text@),
            quantity matches Some(q) ==> q@ == text@,
    {
        if check_number(text) || check_null(text) {
            Some(Quantity { text: String::from_str(text) })
        } else {
            None
        }
    }

    /// The text that stands for the quantity in a payload.
    pub fn as_str(&self) -> (text: &str)
        ensures
            text@ == self@,
            is_quantity_text(text@),
    {
        proof {
            use_type_invariant(self);
        }
        self.text.as_str()
    }
}

} // verus!
