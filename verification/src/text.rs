//! Character and string primitives of the standard library that the lexer and
//! the parser rely on, with the contracts the rest of the crate assumes of them.
use vstd::prelude::*;

verus! {

/// Whether a character beyond ASCII has the Unicode `White_Space` property, as
/// `char::is_whitespace` reports it.
pub uninterp spec fn is_white_space_beyond_ascii(c: char) -> bool;

/// Whether a character has the Unicode `White_Space` property. Among the ASCII
/// characters these are the space and U+0009 to U+000D; beyond them the
/// property is named, not spelled out.
pub open spec fn is_white_space(c: char) -> bool {
    if c <= '\u{7f}' {
        c == ' ' || ('\u{9}' <= c && c <= '\u{d}')
    } else {
        is_white_space_beyond_ascii(c)
    }
}

/// The Unicode lowercase form of a text that is not all ASCII, as
/// `str::to_lowercase` computes it.
pub uninterp spec fn lowercase_beyond_ascii(s: Seq<char>) -> Seq<char>;

/// Whether every character of `s` is an ASCII character.
pub open spec fn is_ascii_text(s: Seq<char>) -> bool {
    forall|i: int| 0 <= i < s.len() ==> #[trigger] s[i] <= '\u{7f}'
}

/// The lowercase form of an ASCII character: the small letter of a capital
/// letter, and every other character itself.
pub open spec fn ascii_lowercase(c: char) -> char {
    match c {
        'A' => 'a',
        'B' => 'b',
        'C' => 'c',
        'D' => 'd',
        'E' => 'e',
        'F' => 'f',
        'G' => 'g',
        'H' => 'h',
        'I' => 'i',
        'J' => 'j',
        'K' => 'k',
        'L' => 'l',
        'M' => 'm',
        'N' => 'n',
        'O' => 'o',
        'P' => 'p',
        'Q' => 'q',
        'R' => 'r',
        'S' => 's',
        'T' => 't',
        'U' => 'u',
        'V' => 'v',
        'W' => 'w',
        'X' => 'x',
        'Y' => 'y',
        'Z' => 'z',
        _ => c,
    }
}

/// The Unicode lowercase form of a text. A text of ASCII characters is lowered
/// character by character; the form of any other text is named, not spelled
/// out.
pub open spec fn lowercase(s: Seq<char>) -> Seq<char> {
    if is_ascii_text(s) {
        s.map_values(|c: char| ascii_lowercase(c))
    } else {
        lowercase_beyond_ascii(s)
    }
}

/// `char::is_whitespace` decides the `White_Space` property of the Unicode
/// character database: of an ASCII character, whether it is the space or one
/// of U+0009 to U+000D; of any other, what [`is_white_space_beyond_ascii`]
/// names.
pub assume_specification[ char::is_whitespace ](c: char) -> (r: bool)
    ensures
        r == is_white_space(c),
        c > '\u{7f}' ==> r == is_white_space_beyond_ascii(c),
;

/// `str::to_lowercase` returns the lowercase form of the whole text by the
/// Unicode character database: of a text of ASCII characters, the text with
/// its capital letters made small; of any other, what
/// [`lowercase_beyond_ascii`] names.
pub assume_specification[ str::to_lowercase ](s: &str) -> (r: String)
    ensures
        r@ == lowercase(s@),
        !is_ascii_text(s@) ==> r@ == lowercase_beyond_ascii(s@),
;

/// `str`'s `==` holds exactly when both slices hold the same characters.
pub assume_specification[ <str as PartialEq>::eq ](a: &str, b: &str) -> (r: bool)
    ensures
        r == (a@ == b@),
;

/// `String::push` appends one character and leaves the rest untouched.
pub assume_specification[ String::push ](s: &mut String, c: char)
    ensures
        final(s)@ == old(s)@.push(c),
;

/// The characters of `s`, in order.
pub fn chars_of(s: &str) -> (r: Vec<char>)
    ensures
        r@ == s@,
{
    let mut v: Vec<char> = Vec::new();
    for c in it: s.chars()
        invariant
            v@ == it.seq().take(it.index()),
            it.seq() == s@,
    {
        v.push(c);
    }
    v
}

/// The string made of `v[from..to]`.
pub fn string_of(v: &Vec<char>, from: usize, to: usize) -> (r: String)
    requires
        from <= to <= v.len(),
    ensures
        r@ == v@.subrange(from as int, to as int),
{
    let mut s = String::new();
    let mut i: usize = from;
    while i < to
        invariant
            from <= i <= to <= v.len(),
            s@ == v@.subrange(from as int, i as int),
        decreases to - i,
    {
        s.push(v[i]);
        i += 1;
    }
    s
}

} // verus!
