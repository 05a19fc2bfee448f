//! Decimal numbers in text form.
//!
//! A price travels through the library as the text in which it was written.
//! The texts that count as a decimal are those of this grammar, in which
//! letters match in either case:
//!
//! ```text
//! Decimal ::= Sign? ( 'inf' | 'infinity' | 'nan' | Number )
//! Number  ::= ( Digit+ | Digit+ '.' Digit* | Digit* '.' Digit+ ) Exp?
//! Exp     ::= 'e' Sign? Digit+
//! Sign    ::= [+-]
//! Digit   ::= [0-9]
//! ```
//!
//! It is the grammar of Rust's own parser for binary floating-point numbers, so
//! a caller can turn every accepted text into such a number.

use vstd::prelude::*;

verus! {

/// Digit ::= [0-9]
pub open spec fn is_digit(c: char) -> bool {
    '0' <= c && c <= '9'
}

/// Sign ::= [+-]
pub open spec fn is_sign(c: char) -> bool {
    c == '+' || c == '-'
}

/// The number of digits that `s` starts with.
pub open spec fn leading_digits(s: Seq<char>) -> nat
    decreases s.len(),
{
    if s.len() > 0 && is_digit(s[0]) {
        1 + leading_digits(s.drop_first())
    } else {
        0
    }
}

/// `s` without its sign, where it starts with one.
pub open spec fn unsigned(s: Seq<char>) -> Seq<char> {
    if s.len() > 0 && is_sign(s[0]) {
        s.drop_first()
    } else {
        s
    }
}

/// Exp ::= 'e' Sign? Digit+
pub open spec fn is_exponent(s: Seq<char>) -> bool {
    &&& s.len() > 0
    &&& (s[0] == 'e' || s[0] == 'E')
    &&& unsigned(s.drop_first()).len() > 0
    &&& leading_digits(unsigned(s.drop_first())) == unsigned(s.drop_first()).len()
}

/// Number ::= ( Digit+ | Digit+ '.' Digit* | Digit* '.' Digit+ ) Exp?
pub open spec fn is_number(s: Seq<char>) -> bool {
    let whole = leading_digits(s);
    let rest = s.skip(whole as int);
    if rest.len() > 0 && rest[0] == '.' {
        let fraction = leading_digits(rest.drop_first());
        let tail = rest.drop_first().skip(fraction as int);
        whole + fraction >= 1 && (tail.len() == 0 || is_exponent(tail))
    } else {
        whole >= 1 && (rest.len() == 0 || is_exponent(rest))
    }
}

/// Whether `c` is the lower-case letter `letter` or its upper-case form.
pub open spec fn same_letter(c: char, letter: char) -> bool {
    c == letter || c as u32 + 32 == letter as u32
}

/// Whether `s` spells the lower-case word `word`, in either case.
pub open spec fn spells(s: Seq<char>, word: Seq<char>) -> bool {
    &&& s.len() == word.len()
    &&& forall|i: int| 0 <= i < s.len() ==> same_letter(#[trigger] s[i], word[i])
}

/// 'inf' | 'infinity' | 'nan'
pub open spec fn is_special(s: Seq<char>) -> bool {
    spells(s, "inf"@) || spells(s, "infinity"@) || spells(s, "nan"@)
}

/// Decimal ::= Sign? ( 'inf' | 'infinity' | 'nan' | Number )
pub open spec fn is_decimal(s: Seq<char>) -> bool {
    is_special(unsigned(s)) || is_number(unsigned(s))
}

/// Unfolds `leading_digits` once at position `at` of `s`.
proof fn lemma_leading_digits_step(s: Seq<char>, at: int)
    requires
        0 <= at <= s.len(),
    ensures
        leading_digits(s.skip(at)) == if at < s.len() && is_digit(s[at]) {
            1 + leading_digits(s.skip(at + 1))
        } else {
            0
        },
{
    if at < s.len() {
        assert(s.skip(at).drop_first() =~= s.skip(at + 1));
    }
}

/// The characters of a text, in order.
fn chars_of(text: &str) -> (chars: Vec<char>)
    ensures
        chars@ == text@,
{
    let mut chars: Vec<char> = Vec::new();
    for c in it: text.chars()
        invariant
            it.seq() == text@,
            chars@ =~= text@.take(it.index() as int),
    {
        chars.push(c);
    }
    assert(chars@ =~= text@);
    chars
}

/// The position behind the digits that start at `start`.
fn skip_digits(chars: &Vec<char>, start: usize) -> (end: usize)
    requires
        start <= chars.len(),
    ensures
        start <= end <= chars.len(),
        end - start == leading_digits(chars@.skip(start as int)),
{
    let mut end: usize = start;
    while end < chars.len() && '0' <= chars[end] && chars[end] <= '9'
        invariant
            start <= end <= chars.len(),
            leading_digits(chars@.skip(start as int)) == (end - start) + leading_digits(
                chars@.skip(end as int),
            ),
        decreases chars.len() - end,
    {
        proof {
            lemma_leading_digits_step(chars@, end as int);
        }
        end += 1;
    }
    proof {
        lemma_leading_digits_step(chars@, end as int);
    }
    end
}

/// The position behind the sign at `start`, where there is one.
fn skip_sign(chars: &Vec<char>, start: usize) -> (end: usize)
    requires
        start <= chars.len(),
    ensures
        start <= end <= chars.len(),
        chars@.skip(end as int) == unsigned(chars@.skip(start as int)),
{
    if start < chars.len() && (chars[start] == '+' || chars[start] == '-') {
        assert(chars@.skip(start as int).drop_first() =~= chars@.skip(start + 1));
        start + 1
    } else {
        start
    }
}

/// Whether an exponent starts at `start` and reaches the end.
fn exponent_at(chars: &Vec<char>, start: usize) -> (found: bool)
    requires
        start <= chars.len(),
    ensures
        found == is_exponent(chars@.skip(start as int)),
{
    if start < chars.len() && (chars[start] == 'e' || chars[start] == 'E') {
        assert(chars@.skip(start as int).drop_first() =~= chars@.skip(start + 1));
        let digits = skip_sign(chars, start + 1);
        let end = skip_digits(chars, digits);
        digits < chars.len() && end == chars.len()
    } else {
        false
    }
}

/// Whether a number starts at `start` and reaches the end.
fn number_at(chars: &Vec<char>, start: usize) -> (found: bool)
    requires
        start <= chars.len(),
    ensures
        found == is_number(chars@.skip(start as int)),
{
    let whole_end = skip_digits(chars, start);
    let ghost body = chars@.skip(start as int);
    assert(body.skip(whole_end - start) =~= chars@.skip(whole_end as int));
    if whole_end < chars.len() && chars[whole_end] == '.' {
        let fraction_end = skip_digits(chars, whole_end + 1);
        proof {
            let rest = chars@.skip(whole_end as int);
            assert(rest.drop_first() =~= chars@.skip(whole_end + 1));
            assert(rest.drop_first().skip(fraction_end - (whole_end + 1)) =~= chars@.skip(
                fraction_end as int,
            ));
        }
        let digits = (whole_end - start) + (fraction_end - (whole_end + 1));
        digits >= 1 && (fraction_end == chars.len() || exponent_at(chars, fraction_end))
    } else {
        whole_end > start && (whole_end == chars.len() || exponent_at(chars, whole_end))
    }
}

/// Whether `c` is the lower-case letter `letter` or its upper-case form.
fn letter_matches(c: char, letter: char) -> (same: bool)
    ensures
        same == same_letter(c, letter),
{
    c == letter || c as u32 + 32 == letter as u32
}

/// Whether the characters from `start` to the end spell `word`.
fn spelled_at(chars: &Vec<char>, start: usize, word: &str) -> (found: bool)
    requires
        start <= chars.len(),
    ensures
        found == spells(chars@.skip(start as int), word@),
{
    let letters = chars_of(word);
    if chars.len() - start != letters.len() {
        return false;
    }
    let ghost body = chars@.skip(start as int);
    let mut i: usize = 0;
    while i < letters.len()
        invariant
            start <= chars.len(),
            chars.len() - start == letters.len(),
            letters@ == word@,
            body == chars@.skip(start as int),
            i <= letters.len(),
            forall|k: int| 0 <= k < i ==> same_letter(#[trigger] body[k], word@[k]),
        decreases letters.len() - i,
    {
        if !letter_matches(chars[start + i], letters[i]) {
            assert(!same_letter(body[i as int], word@[i as int]));
            return false;
        }
        i += 1;
    }
    true
}

/// A decimal number in text form: a text of the grammar of this module.
#[derive(Debug, PartialEq, Eq)]
pub struct Decimal {
    text: String,
}

impl View for Decimal {
    type V = Seq<char>;

    /// The text of the number.
    closed spec fn view(&self) -> Seq<char> {
        self.text@
    }
}

impl Clone for Decimal {
    fn clone(&self) -> (copy: Decimal)
        ensures
            copy@ == self@,
    {
        proof {
            use_type_invariant(self);
        }
        Decimal { text: self.text.clone() }
    }
}

impl Decimal {
    #[verifier::type_invariant]
    spec fn well_formed(self) -> bool {
        is_decimal(self.text@)
    }

    /// Reads a decimal: the text itself where it is one, nothing otherwise.
    /// Surrounding white space is not tolerated.
    pub fn parse(text: &str) -> (parsed: Option<Decimal>)
        ensures
            parsed is Some == is_decimal(text@),
            parsed is Some ==> parsed->0@ == text@,
    {
        let chars = chars_of(text);
        assert(chars@.skip(0) =~= chars@);
        let body = skip_sign(&chars, 0);
        let accepted = spelled_at(&chars, body, "inf") || spelled_at(&chars, body, "infinity")
            || spelled_at(&chars, body, "nan") || number_at(&chars, body);
        if accepted {
            Some(Decimal { text: text.to_owned() })
        } else {
            None
        }
    }

    /// The text of the number, which is a decimal.
    pub fn as_str(&self) -> (text: &str)
        ensures
            text@ == self@,
            is_decimal(text@),
    {
        proof {
            use_type_invariant(self);
        }
        self.text.as_str()
    }
}

} // verus!
