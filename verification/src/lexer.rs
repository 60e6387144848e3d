//! The lexer: from the text of a design to its tokens.
//!
//! Two directives govern quoting, and they hold for the whole text wherever
//! they stand in it: `(string_quote <c>)` names the quote character, and
//! `(space_in_quoted_tokens off)` forbids spaces inside quoted literals, which
//! turns quoting off. Both are looked for in the whole text and cut out of it
//! before the first character is scanned, so a directive also governs the text
//! that precedes it.
use crate::error::{LexError, LexErrorView};
use crate::pattern;
use crate::text::{chars_of, is_white_space, lowercase};
use crate::token::{Tok, Token, TokenView};
use crate::types::{lemma_views_push, views};
use vstd::prelude::*;
use vstd::string::StringExecFns;

verus! {

/// The pattern of the directive that names the quote character.
pub const STRING_QUOTE: &'static str = r"(?is)\(\s*string_quote\s+(.)\s*\)";

/// The pattern of the directive that forbids spaces in quoted literals.
pub const SPACE_IN_QUOTED_TOKENS_OFF: &'static str = r"(?is)\(\s*space_in_quoted_tokens\s+off\s*\)";

/// The tag of an unquoted text: that of the keyword which the text spells when
/// lowered, or `Literal`.
pub open spec fn tag(text: Seq<char>) -> Tok {
    match Tok::keyword(lowercase(text)) {
        Some(t) => t,
        None => Tok::Literal,
    }
}

/// The tokens `out` and, unless it is empty, the unquoted text `cur`.
pub open spec fn flush(cur: Seq<char>, out: Seq<TokenView>) -> Seq<TokenView> {
    if cur.len() == 0 {
        out
    } else {
        out.push(TokenView { tok: tag(cur), s: cur })
    }
}

/// The token of a parenthesis.
pub open spec fn paren(c: char) -> TokenView {
    TokenView {
        tok: if c == '(' {
            Tok::Lparen
        } else {
            Tok::Rparen
        },
        s: seq![c],
    }
}

/// Reads a quoted literal from behind its opening quote: `cur` and the
/// characters before the next `quote`, and the text after that quote. `None`
/// if the text ends first.
pub open spec fn quoted(s: Seq<char>, quote: char, cur: Seq<char>) -> Option<
    (Seq<char>, Seq<char>),
>
    decreases s.len(),
{
    if s.len() == 0 {
        None
    } else if s[0] == quote {
        Some((cur, s.skip(1)))
    } else {
        quoted(s.skip(1), quote, cur.push(s[0]))
    }
}

/// What is left after a quoted literal is shorter than what stood behind its
/// opening quote.
pub broadcast proof fn lemma_quoted_shrinks(s: Seq<char>, quote: char, cur: Seq<char>)
    ensures
        #[trigger] quoted(s, quote, cur) matches Some((_, rest)) ==> rest.len() < s.len(),
    decreases s.len(),
{
    if s.len() > 0 && s[0] != quote {
        lemma_quoted_shrinks(s.skip(1), quote, cur.push(s[0]));
    }
}

/// The tokens of the text `s`, after the tokens `out` and the unfinished
/// unquoted text `cur`. With a `quote` in force, a quote character starts a
/// literal that runs to the next one and may hold any character; the literal
/// is never a keyword. Otherwise whitespace and parentheses end the text being
/// gathered, and a parenthesis is a token of its own.
pub open spec fn scan(s: Seq<char>, quote: Option<char>, cur: Seq<char>, out: Seq<TokenView>)
    -> Result<Seq<TokenView>, LexErrorView>
    decreases s.len(),
    via scan_decreases
{
    if s.len() == 0 {
        Ok(flush(cur, out))
    } else if quote == Some(s[0]) {
        match quoted(s.skip(1), s[0], cur) {
            None => Err(LexErrorView::UnexpectedEof),
            Some((text, rest)) => scan(
                rest,
                quote,
                Seq::empty(),
                out.push(TokenView { tok: Tok::Literal, s: text }),
            ),
        }
    } else if s[0] == '(' || s[0] == ')' {
        scan(s.skip(1), quote, Seq::empty(), flush(cur, out).push(paren(s[0])))
    } else if is_white_space(s[0]) {
        scan(s.skip(1), quote, Seq::empty(), flush(cur, out))
    } else {
        scan(s.skip(1), quote, cur.push(s[0]), out)
    }
}

#[via_fn]
proof fn scan_decreases(s: Seq<char>, quote: Option<char>, cur: Seq<char>, out: Seq<TokenView>) {
    broadcast use lemma_quoted_shrinks;

}

/// Whether `text` is one of the three quote characters.
pub open spec fn is_quote(text: Seq<char>) -> bool {
    text == seq!['\''] || text == seq!['"'] || text == seq!['$']
}

/// What a lexer is: the text it has yet to scan, the directives it obeys, and
/// what it has gathered so far.
pub struct LexerView {
    pub text: Seq<char>,
    pub string_quote: Option<char>,
    pub spaces_in_quotes: bool,
    pub token: Seq<char>,
    pub tokens: Seq<TokenView>,
}

impl LexerView {
    /// The quote character in force. Quoting is in force only while quoted
    /// literals may hold spaces.
    pub open spec fn quote(self) -> Option<char> {
        if self.spaces_in_quotes {
            self.string_quote
        } else {
            None
        }
    }

    /// The tokens that the lexer yields.
    pub open spec fn lex(self) -> Result<Seq<TokenView>, LexErrorView> {
        scan(self.text, self.quote(), self.token, self.tokens)
    }
}

/// The lexer that the directives found in a text call for: `quote` is what the
/// quote directive names, if there is one, `spaces_off` whether the other
/// directive is there, and `text` the text without its directives.
pub open spec fn configured(quote: Option<Seq<char>>, spaces_off: bool, text: Seq<char>) -> Result<
    LexerView,
    LexErrorView,
> {
    match quote {
        Some(q) if !is_quote(q) => Err(LexErrorView::UnknownQuote(q)),
        _ => Ok(
            LexerView {
                text,
                string_quote: match quote {
                    Some(q) => Some(q[0]),
                    None => None,
                },
                spaces_in_quotes: !spaces_off,
                token: Seq::empty(),
                tokens: Seq::empty(),
            },
        ),
    }
}

/// The lexer for a text: the directives are looked for in the whole text and
/// cut out of it, the quote directive first.
pub open spec fn prescan(text: Seq<char>) -> Result<LexerView, LexErrorView> {
    if !pattern::compiles(STRING_QUOTE@) || !pattern::compiles(SPACE_IN_QUOTED_TOKENS_OFF@) {
        Err(LexErrorView::Pattern)
    } else {
        configured(
            pattern::group_in(STRING_QUOTE@, 1, text),
            pattern::found(SPACE_IN_QUOTED_TOKENS_OFF@, text),
            pattern::replaced(
                SPACE_IN_QUOTED_TOKENS_OFF@,
                pattern::replaced(STRING_QUOTE@, text, Seq::empty()),
                Seq::empty(),
            ),
        )
    }
}

/// A lexer over the text of one design.
#[must_use]
#[derive(Debug, Clone, PartialEq, Eq, PartialOrd, Ord)]
pub struct Lexer {
    data: Vec<char>,
    token: String,
    tokens: Vec<Token>,
    idx: usize,
    string_quote: Option<char>,  // What the quote character is, out of ', ", $
    spaces_in_quotes: bool,  // If quoted strings can contain spaces.
}

impl View for Lexer {
    type V = LexerView;

    closed spec fn view(&self) -> LexerView {
        LexerView {
            text: if self.idx <= self.data.len() {
                self.data@.skip(self.idx as int)
            } else {
                Seq::empty()
            },
            string_quote: self.string_quote,
            spaces_in_quotes: self.spaces_in_quotes,
            token: self.token@,
            tokens: views(self.tokens@),
        }
    }
}

/// The lexer `r` is the one that `expected` describes, or fails as it does.
pub open spec fn lexer_agrees(r: Result<Lexer, LexError>, expected: Result<LexerView, LexErrorView>)
    -> bool {
    match expected {
        Ok(v) => r is Ok && r->Ok_0@ == v,
        Err(e) => r is Err && r->Err_0@ == e,
    }
}

/// The tokens `r` are those that `expected` describes, or the failure is.
pub open spec fn lexes_to(
    r: Result<Vec<Token>, LexError>,
    expected: Result<Seq<TokenView>, LexErrorView>,
) -> bool {
    match expected {
        Ok(v) => r is Ok && views(r->Ok_0@) == v,
        Err(e) => r is Err && r->Err_0@ == e,
    }
}

impl Lexer {
    /// The lexer for `data`: finds the two directives anywhere in `data` and
    /// cuts them out.
    pub fn new(data: &str) -> (r: Result<Lexer, LexError>)
        ensures
            lexer_agrees(r, prescan(data@)),
    {
        let quote = match pattern::capture(STRING_QUOTE, 1, data) {
            Ok(q) => q,
            Err(_) => return Err(LexError::Pattern),
        };
        let spaces_off = match pattern::is_match(SPACE_IN_QUOTED_TOKENS_OFF, data) {
            Ok(b) => b,
            Err(_) => return Err(LexError::Pattern),
        };
        // Remove these directives. At least the string quote needs to
        // be removed for proper lexing.
        let data = match pattern::replace_all(STRING_QUOTE, data, "") {
            Ok(s) => s,
            Err(_) => return Err(LexError::Pattern),
        };
        let data = match pattern::replace_all(SPACE_IN_QUOTED_TOKENS_OFF, data.as_str(), "") {
            Ok(s) => s,
            Err(_) => return Err(LexError::Pattern),
        };
        proof {
            reveal_strlit("");
            assert(""@ =~= Seq::<char>::empty());
        }
        Lexer::with_directives(quote, spaces_off, data.as_str())
    }

    /// The lexer for `text`, which holds no directive any more, under the
    /// directives that were found: `quote` is what the quote directive names,
    /// `spaces_off` whether spaces in quoted literals are forbidden.
    pub fn with_directives(quote: Option<String>, spaces_off: bool, text: &str) -> (r: Result<
        Lexer,
        LexError,
    >)
        ensures
            lexer_agrees(
                r,
                configured(
                    match quote {
                        Some(q) => Some(q@),
                        None => None,
                    },
                    spaces_off,
                    text@,
                ),
            ),
    {
        let string_quote = match quote {
            Some(q) => {
                let c = chars_of(q.as_str());
                if c.len() == 1 && (c[0] == '\'' || c[0] == '"' || c[0] == '$') {
                    assert(q@ =~= seq![c[0]]);
                    Some(c[0])
                } else {
                    assert(!is_quote(q@)) by {
                        if is_quote(q@) {
                            assert(q@.len() == 1);
                            assert(q@[0] == '\'' || q@[0] == '"' || q@[0] == '$');
                        }
                    }
                    return Err(LexError::UnknownQuote(q));
                }
            },
            None => None,
        };
        let data = chars_of(text);
        assert(data@.skip(0) =~= text@);
        let tokens: Vec<Token> = Vec::new();
        assert(views(tokens@) =~= Seq::empty());
        // Spaces in quoted literals are allowed unless the directive forbids
        // them: most tools do so, though the format says otherwise.
        Ok(
            Lexer {
                data,
                token: String::new(),
                tokens,
                idx: 0,
                string_quote,
                spaces_in_quotes: !spaces_off,
            },
        )
    }

    /// Scans the text into tokens. Fails if the text ends inside a quoted
    /// literal.
    pub fn lex(self) -> (r: Result<Vec<Token>, LexError>)
        ensures
            lexes_to(r, self@.lex()),
    {
        let mut lx = self;
        let ghost quote = self@.quote();
        while lx.idx < lx.data.len()
            invariant
                lx@.quote() == quote,
                quote == self@.quote(),
                scan(lx@.text, quote, lx@.token, lx@.tokens) == self@.lex(),
            decreases lx@.text.len(),
        {
            broadcast use lemma_quoted_shrinks, lemma_views_push;

            let ghost before = lx@;
            let c = lx.next()?;
            if Some(c) == lx.string_quote && lx.spaces_in_quotes {
                // Grab quoted literal.
                loop
                    invariant
                        lx@.quote() == quote,
                        quote == Some(c),
                        before.text.len() > 0,
                        before.text[0] == c,
                        scan(before.text, quote, before.token, before.tokens) == self@.lex(),
                        lx@.tokens == before.tokens,
                        quoted(lx@.text, c, lx@.token) == quoted(
                            before.text.skip(1),
                            c,
                            before.token,
                        ),
                        lx@.text.len() < before.text.len(),
                    ensures
                        lx@.text.len() > 0 && lx@.text[0] == c,
                    decreases lx@.text.len(),
                {
                    match lx.peek() {
                        None => {
                            return Err(LexError::UnexpectedEof);
                        },
                        Some(p) => {
                            if p == c {
                                break;
                            }
                        },
                    }
                    let next = lx.next()?;
                    lx.token.push(next);
                }
                lx.next()?;  // Discard ending character
                lx.push_literal();
            } else if c == '(' || c == ')' {
                // Ends the current token and is a token itself.
                lx.push_token();
                lx.tokens.push(
                    Token {
                        tok: if c == '(' {
                            Tok::Lparen
                        } else {
                            Tok::Rparen
                        },
                        s: char_string(c),
                    },
                );
            } else if c.is_whitespace() {
                // Ends the current token.
                lx.push_token();
            } else {
                lx.token.push(c);
            }
        }
        lx.push_token();
        Ok(lx.tokens)
    }

    /// The next character, if there is one.
    fn peek(&self) -> (r: Option<char>)
        ensures
            match r {
                Some(c) => self@.text.len() > 0 && c == self@.text[0],
                None => self@.text.len() == 0,
            },
    {
        if self.idx < self.data.len() {
            Some(self.data[self.idx])
        } else {
            None
        }
    }

    /// Reads the next character.
    fn next(&mut self) -> (r: Result<char, LexError>)
        ensures
            match r {
                Ok(c) => old(self)@.text.len() > 0 && c == old(self)@.text[0] && final(self)@ == (
                LexerView { text: old(self)@.text.skip(1), ..old(self)@ }),
                Err(e) => old(self)@.text.len() == 0 && e@ == LexErrorView::UnexpectedEof
                    && final(self)@ == old(self)@,
            },
    {
        if self.idx < self.data.len() {
            self.idx += 1;
            assert(self@.text =~= old(self)@.text.skip(1));
            Ok(self.data[self.idx - 1])
        } else {
            Err(LexError::UnexpectedEof)
        }
    }

    /// Ends the unquoted text gathered so far: unless it is empty, it is a
    /// token, a keyword if it spells one in any case.
    fn push_token(&mut self)
        ensures
            final(self)@ == (LexerView {
                token: Seq::empty(),
                tokens: flush(old(self)@.token, old(self)@.tokens),
                ..old(self)@
            }),
    {
        broadcast use lemma_views_push;

        if !self.token.as_str().is_empty() {
            let mut token_str = String::new();
            std::mem::swap(&mut token_str, &mut self.token);
            let token = Token {
                tok: match Tok::from_str(token_str.to_lowercase().as_str()) {
                    Ok(t) => t,
                    Err(_) => Tok::Literal,
                },
                s: token_str,
            };
            self.tokens.push(token);
        } else {
            assert(self.token@ =~= Seq::empty());
        }
    }

    /// Ends a quoted literal: the text gathered so far is a token with the
    /// tag `Literal`, also where it is empty.
    fn push_literal(&mut self)
        ensures
            final(self)@ == (LexerView {
                token: Seq::empty(),
                tokens: old(self)@.tokens.push(
                    TokenView { tok: Tok::Literal, s: old(self)@.token },
                ),
                ..old(self)@
            }),
    {
        broadcast use lemma_views_push;

        let token = Token { tok: Tok::Literal, s: self.token.clone() };
        self.tokens.push(token);
        self.token = String::new();
    }
}

/// The string of the one character `c`.
fn char_string(c: char) -> (r: String)
    ensures
        r@ == seq![c],
{
    let mut s = String::new();
    s.push(c);
    assert(s@ =~= seq![c]);
    s
}

} // verus!
