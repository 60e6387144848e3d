//! Numeric literals.
//!
//! The grammar of a coordinate or a width is that of a decimal floating-point
//! literal; a resolution is a 32-bit integer literal. A [`DsnNumber`] keeps the
//! literal as it was written: the document preserves values verbatim and
//! leaves their interpretation to the consumer.
use crate::text::chars_of;
use vstd::prelude::*;
use vstd::string::StringExecFns;

verus! {

/// `Digit ::= [0-9]`
pub open spec fn is_digit(c: char) -> bool {
    '0' <= c <= '9'
}

/// `Sign ::= [+-]`
pub open spec fn is_sign(c: char) -> bool {
    c == '+' || c == '-'
}

/// `c` is the letter written `lower` or `upper`.
pub open spec fn is_letter(c: char, lower: char, upper: char) -> bool {
    c == lower || c == upper
}

/// The number of digits that `s` starts with.
pub open spec fn leading_digits(s: Seq<char>) -> nat
    decreases s.len(),
{
    if s.len() > 0 && is_digit(s[0]) {
        1 + leading_digits(s.skip(1))
    } else {
        0
    }
}

/// `s` without its sign, if it has one.
pub open spec fn unsigned(s: Seq<char>) -> Seq<char> {
    if s.len() > 0 && is_sign(s[0]) {
        s.skip(1)
    } else {
        s
    }
}

/// `Exp ::= 'e' Sign? Digit+`, in either case.
pub open spec fn is_exponent(s: Seq<char>) -> bool {
    &&& s.len() >= 1
    &&& is_letter(s[0], 'e', 'E')
    &&& unsigned(s.skip(1)).len() >= 1
    &&& leading_digits(unsigned(s.skip(1))) == unsigned(s.skip(1)).len()
}

/// `Number ::= ( Digit+ | Digit+ '.' Digit* | Digit* '.' Digit+ ) Exp?`
pub open spec fn is_decimal(s: Seq<char>) -> bool {
    let whole = leading_digits(s);
    let t = s.skip(whole as int);
    if t.len() > 0 && t[0] == '.' {
        let fraction = leading_digits(t.skip(1));
        let e = t.skip(1 + fraction as int);
        whole + fraction >= 1 && (e.len() == 0 || is_exponent(e))
    } else {
        whole >= 1 && (t.len() == 0 || is_exponent(t))
    }
}

/// `inf`, `infinity` or `nan`, in any mix of cases.
pub open spec fn is_special(s: Seq<char>) -> bool {
    ||| {
        &&& s.len() == 3
        &&& is_letter(s[0], 'i', 'I')
        &&& is_letter(s[1], 'n', 'N')
        &&& is_letter(s[2], 'f', 'F')
    }
    ||| {
        &&& s.len() == 8
        &&& is_letter(s[0], 'i', 'I')
        &&& is_letter(s[1], 'n', 'N')
        &&& is_letter(s[2], 'f', 'F')
        &&& is_letter(s[3], 'i', 'I')
        &&& is_letter(s[4], 'n', 'N')
        &&& is_letter(s[5], 'i', 'I')
        &&& is_letter(s[6], 't', 'T')
        &&& is_letter(s[7], 'y', 'Y')
    }
    ||| {
        &&& s.len() == 3
        &&& is_letter(s[0], 'n', 'N')
        &&& is_letter(s[1], 'a', 'A')
        &&& is_letter(s[2], 'n', 'N')
    }
}

/// `Float ::= Sign? ( 'inf' | 'infinity' | 'nan' | Number )`: the texts that
/// denote a floating-point number. No surrounding whitespace, no digit
/// separators, no fractions `a/b`.
pub open spec fn is_float_literal(s: Seq<char>) -> bool {
    is_special(unsigned(s)) || is_decimal(unsigned(s))
}

/// The value of a digit.
pub open spec fn digit_value(c: char) -> int {
    c as int - '0' as int
}

/// The value of a run of digits read as a decimal numeral; 0 for the empty run.
pub open spec fn decimal_value(s: Seq<char>) -> int
    decreases s.len(),
{
    if s.len() == 0 {
        0
    } else {
        decimal_value(s.drop_last()) * 10 + digit_value(s.last())
    }
}

/// The value of `Sign? Digit+` if it fits in 32 bits, else `None`.
pub open spec fn int_literal(s: Seq<char>) -> Option<int> {
    let digits = unsigned(s);
    let magnitude = decimal_value(digits);
    let value = if s.len() > 0 && s[0] == '-' {
        -magnitude
    } else {
        magnitude
    };
    if digits.len() >= 1 && leading_digits(digits) == digits.len() && i32::MIN <= value
        <= i32::MAX {
        Some(value)
    } else {
        None
    }
}

/// Whether `v` has a digit at `i`.
fn digit_at(v: &Vec<char>, i: usize) -> (r: bool)
    ensures
        r == (i < v.len() && is_digit(v[i as int])),
{
    i < v.len() && '0' <= v[i] && v[i] <= '9'
}

/// Whether `v` has a sign at `i`.
fn sign_at(v: &Vec<char>, i: usize) -> (r: bool)
    ensures
        r == (i < v.len() && is_sign(v[i as int])),
{
    i < v.len() && (v[i] == '+' || v[i] == '-')
}

/// Whether `v` has the letter written `lower` or `upper` at `i`.
fn letter_at(v: &Vec<char>, i: usize, lower: char, upper: char) -> (r: bool)
    ensures
        r == (i < v.len() && is_letter(v[i as int], lower, upper)),
{
    i < v.len() && (v[i] == lower || v[i] == upper)
}

/// Skipping twice is skipping once.
proof fn lemma_skip_skip(s: Seq<char>, a: int, b: int)
    requires
        0 <= a,
        0 <= b,
        a + b <= s.len(),
    ensures
        s.skip(a).skip(b) == s.skip(a + b),
{
    assert(s.skip(a).skip(b) =~= s.skip(a + b));
}

/// The index of the first character at or after `from` that is no digit.
fn skip_digits(v: &Vec<char>, from: usize) -> (to: usize)
    requires
        from <= v.len(),
    ensures
        from <= to <= v.len(),
        to - from == leading_digits(v@.skip(from as int)),
{
    let mut i: usize = from;
    while digit_at(v, i)
        invariant
            from <= i <= v.len(),
            leading_digits(v@.skip(from as int)) == (i - from) + leading_digits(
                v@.skip(i as int),
            ),
        decreases v.len() - i,
    {
        proof {
            lemma_skip_skip(v@, i as int, 1);
        }
        i += 1;
    }
    i
}

/// Whether `v[from..]` is an exponent.
fn exponent_at(v: &Vec<char>, from: usize) -> (r: bool)
    requires
        from <= v.len(),
    ensures
        r == is_exponent(v@.skip(from as int)),
{
    if !letter_at(v, from, 'e', 'E') {
        return false;
    }
    let start: usize = if sign_at(v, from + 1) {
        from + 2
    } else {
        from + 1
    };
    proof {
        lemma_skip_skip(v@, from as int, 1);
        if start == from + 2 {
            lemma_skip_skip(v@, from + 1, 1);
        }
        assert(unsigned(v@.skip(from as int).skip(1)) == v@.skip(start as int));
    }
    let end = skip_digits(v, start);
    start < v.len() && end == v.len()
}

/// Whether `v[from..]` is a decimal number.
fn decimal_at(v: &Vec<char>, from: usize) -> (r: bool)
    requires
        from <= v.len(),
    ensures
        r == is_decimal(v@.skip(from as int)),
{
    let dot = skip_digits(v, from);
    let ghost s = v@.skip(from as int);
    proof {
        lemma_skip_skip(v@, from as int, dot - from);
    }
    if dot < v.len() && v[dot] == '.' {
        let e = skip_digits(v, dot + 1);
        proof {
            lemma_skip_skip(v@, dot as int, 1);
            lemma_skip_skip(v@, dot as int, e - dot);
        }
        e - from >= 2 && (e == v.len() || exponent_at(v, e))
    } else {
        dot > from && (dot == v.len() || exponent_at(v, dot))
    }
}

/// Whether `v[from..]` is one of the special values.
fn special_at(v: &Vec<char>, from: usize) -> (r: bool)
    requires
        from <= v.len(),
    ensures
        r == is_special(v@.skip(from as int)),
{
    let n = v.len() - from;
    if n == 3 {
        (letter_at(v, from, 'i', 'I') && letter_at(v, from + 1, 'n', 'N') && letter_at(
            v,
            from + 2,
            'f',
            'F',
        )) || (letter_at(v, from, 'n', 'N') && letter_at(v, from + 1, 'a', 'A') && letter_at(
            v,
            from + 2,
            'n',
            'N',
        ))
    } else if n == 8 {
        letter_at(v, from, 'i', 'I') && letter_at(v, from + 1, 'n', 'N') && letter_at(
            v,
            from + 2,
            'f',
            'F',
        ) && letter_at(v, from + 3, 'i', 'I') && letter_at(v, from + 4, 'n', 'N') && letter_at(
            v,
            from + 5,
            'i',
            'I',
        ) && letter_at(v, from + 6, 't', 'T') && letter_at(v, from + 7, 'y', 'Y')
    } else {
        false
    }
}

/// Decides whether `s` is a floating-point literal.
pub fn is_float(s: &str) -> (r: bool)
    ensures
        r == is_float_literal(s@),
{
    let v = chars_of(s);
    let from: usize = if sign_at(&v, 0) {
        1
    } else {
        0
    };
    assert(unsigned(v@) == v@.skip(from as int));
    special_at(&v, from) || decimal_at(&v, from)
}

/// The value of the first digits of a numeral is at most that of the numeral.
proof fn lemma_decimal_value_grows(s: Seq<char>, k: int)
    requires
        0 <= k <= s.len(),
        leading_digits(s) == s.len(),
    ensures
        0 <= decimal_value(s.take(k)) <= decimal_value(s),
    decreases s.len() - k,
{
    lemma_all_digits(s);
    lemma_decimal_value_nonnegative(s.take(k));
    if k < s.len() {
        assert(s.take(k + 1).drop_last() == s.take(k));
        lemma_decimal_value_grows(s, k + 1);
    } else {
        assert(s.take(k) == s);
    }
}

/// A text that starts with as many digits as it is long holds digits only.
proof fn lemma_all_digits(s: Seq<char>)
    requires
        leading_digits(s) == s.len(),
    ensures
        forall|i: int| 0 <= i < s.len() ==> is_digit(#[trigger] s[i]),
    decreases s.len(),
{
    if s.len() > 0 {
        lemma_leading_digits_bound(s.skip(1));
        lemma_all_digits(s.skip(1));
        assert forall|i: int| 0 <= i < s.len() implies is_digit(#[trigger] s[i]) by {
            if i > 0 {
                assert(s[i] == s.skip(1)[i - 1]);
            }
        }
    }
}

/// A text starts with no more digits than it is long.
proof fn lemma_leading_digits_bound(s: Seq<char>)
    ensures
        leading_digits(s) <= s.len(),
    decreases s.len(),
{
    if s.len() > 0 && is_digit(s[0]) {
        lemma_leading_digits_bound(s.skip(1));
    }
}

/// The value of a numeral is not negative.
proof fn lemma_decimal_value_nonnegative(s: Seq<char>)
    requires
        forall|i: int| 0 <= i < s.len() ==> is_digit(#[trigger] s[i]),
    ensures
        0 <= decimal_value(s),
    decreases s.len(),
{
    if s.len() > 0 {
        lemma_decimal_value_nonnegative(s.drop_last());
    }
}

/// Reads `s` as a 32-bit integer: an optional sign and at least one digit.
pub fn parse_i32(s: &str) -> (r: Option<i32>)
    ensures
        match int_literal(s@) {
            Some(v) => r == Some(v as i32),
            None => r is None,
        },
{
    let v = chars_of(s);
    let negative = v.len() > 0 && v[0] == '-';
    let from: usize = if sign_at(&v, 0) {
        1
    } else {
        0
    };
    let ghost digits = v@.skip(from as int);
    assert(unsigned(v@) == digits);
    let end = skip_digits(&v, from);
    if from == v.len() || end != v.len() {
        return None;
    }
    // The magnitude so far; it stays below 2^31 + 10 or the literal is refused.
    let mut acc: i64 = 0;
    let mut i: usize = from;
    while i < v.len()
        invariant
            from <= i <= v.len(),
            v@ == s@,
            digits == unsigned(v@),
            digits == v@.skip(from as int),
            leading_digits(digits) == digits.len(),
            acc == decimal_value(digits.take(i - from)),
            0 <= acc <= 0x8000_0000,
        decreases v.len() - i,
    {
        proof {
            lemma_all_digits(digits);
            assert(digits.take(i - from + 1).drop_last() == digits.take(i - from));
            assert(digits.take(i - from + 1).last() == v[i as int]);
            lemma_decimal_value_grows(digits, i - from + 1);
        }
        let d: i64 = (v[i] as u32 - '0' as u32) as i64;
        acc = acc * 10 + d;
        assert(acc == decimal_value(digits.take(i - from + 1)));
        if acc > 0x8000_0000 {
            return None;
        }
        i += 1;
    }
    assert(digits.take(i - from) == digits);
    if negative {
        Some((-acc) as i32)
    } else if acc <= 0x7fff_ffff {
        Some(acc as i32)
    } else {
        None
    }
}

/// A number of the document, kept as the literal that denotes it.
#[derive(Debug, PartialEq, Eq)]
pub struct DsnNumber {
    text: String,
}

impl View for DsnNumber {
    type V = Seq<char>;

    closed spec fn view(&self) -> Seq<char> {
        self.text@
    }
}

impl DsnNumber {
    #[verifier::type_invariant]
    spec fn is_literal(self) -> bool {
        is_float_literal(self.text@)
    }

    /// The literal `0`.
    pub open spec fn spec_zero() -> Seq<char> {
        seq!['0']
    }

    /// The number zero, written `0`.
    pub fn zero() -> (r: DsnNumber)
        ensures
            r@ == DsnNumber::spec_zero(),
    {
        let mut text = String::new();
        text.push('0');
        assert(text@ =~= seq!['0']);
        assert(is_float_literal(text@)) by {
            let s = text@;
            assert(unsigned(s) == s);
            assert(s.skip(1).len() == 0);
            assert(leading_digits(s.skip(1)) == 0);
            assert(leading_digits(s) == 1);
            assert(is_decimal(s));
        }
        DsnNumber { text }
    }

    /// The number that `s` denotes, if `s` is a floating-point literal.
    pub fn parse(s: &str) -> (r: Option<DsnNumber>)
        ensures
            r is Some <==> is_float_literal(s@),
            r is Some ==> r->Some_0@ == s@,
    {
        if is_float(s) {
            Some(DsnNumber { text: String::from_str(s) })
        } else {
            None
        }
    }

    /// The literal as it was written.
    pub fn as_str(&self) -> (r: &str)
        ensures
            r@ == self@,
            is_float_literal(r@),
    {
        proof {
            use_type_invariant(self);
        }
        self.text.as_str()
    }
}

impl Clone for DsnNumber {
    fn clone(&self) -> (r: DsnNumber)
        ensures
            r@ == self@,
    {
        proof {
            use_type_invariant(self);
        }
        DsnNumber { text: self.text.clone() }
    }
}

} // verus!
