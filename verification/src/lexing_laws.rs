//! What holds of the tokens of every text.
use crate::error::LexErrorView;
use crate::lexer::{
    flush, paren, prescan, quoted, scan, tag, LexerView, SPACE_IN_QUOTED_TOKENS_OFF, STRING_QUOTE,
};
use crate::pattern::{compiles, found};
use crate::text::{ascii_lowercase, is_ascii_text, is_white_space, lowercase};
use crate::token::{lemma_keyword_ends, Tok, TokenView};
use vstd::prelude::*;

verus! {

/// A piece of a text: a parenthesis, a run of whitespace, a word, or a quoted
/// literal. A quoted literal is given by the quote character, the word that
/// touches the opening quote, which may be empty, and what stands between the
/// quotes.
pub enum Piece {
    Open,
    Close,
    Space(Seq<char>),
    Word(Seq<char>),
    Quoted(char, Seq<char>, Seq<char>),
}

/// A character that neither ends a word nor starts a quoted literal.
pub open spec fn is_word_char(c: char, quote: Option<char>) -> bool {
    !is_white_space(c) && c != '(' && c != ')' && quote != Some(c)
}

/// A character that separates words and is nothing else.
pub open spec fn is_space_char(c: char, quote: Option<char>) -> bool {
    is_white_space(c) && c != '(' && c != ')' && quote != Some(c)
}

impl Piece {
    /// The characters of the piece.
    pub open spec fn text(self) -> Seq<char> {
        match self {
            Piece::Open => seq!['('],
            Piece::Close => seq![')'],
            Piece::Space(s) => s,
            Piece::Word(w) => w,
            Piece::Quoted(q, front, w) => front + (seq![q] + w + seq![q]),
        }
    }

    /// A run of whitespace or a word is not empty and holds only characters of
    /// its kind. A parenthesis is not the quote in force. A quoted literal
    /// stands in the quote in force and holds any character but that one; the
    /// word in front of it holds characters of words only.
    pub open spec fn well_formed(self, quote: Option<char>) -> bool {
        match self {
            Piece::Open => quote != Some('('),
            Piece::Close => quote != Some(')'),
            Piece::Space(s) => s.len() > 0 && forall|i: int|
                0 <= i < s.len() ==> is_space_char(#[trigger] s[i], quote),
            Piece::Word(w) => w.len() > 0 && forall|i: int|
                0 <= i < w.len() ==> is_word_char(#[trigger] w[i], quote),
            Piece::Quoted(q, front, w) => {
                &&& quote == Some(q)
                &&& forall|i: int| 0 <= i < front.len() ==> is_word_char(#[trigger] front[i], quote)
                &&& forall|i: int| 0 <= i < w.len() ==> #[trigger] w[i] != q
            },
        }
    }

    /// The tokens of the piece: none for whitespace, else one. A quoted
    /// literal is a literal, whatever it spells: its text is the word in front
    /// of the quotes and what stands between them, without the quotes.
    pub open spec fn tokens(self) -> Seq<TokenView> {
        match self {
            Piece::Open => seq![paren('(')],
            Piece::Close => seq![paren(')')],
            Piece::Space(_) => Seq::empty(),
            Piece::Word(w) => seq![TokenView { tok: tag(w), s: w }],
            Piece::Quoted(_, front, w) => seq![TokenView { tok: Tok::Literal, s: front + w }],
        }
    }
}

/// The text that the pieces make up.
pub open spec fn render(pieces: Seq<Piece>) -> Seq<char>
    decreases pieces.len(),
{
    if pieces.len() == 0 {
        Seq::empty()
    } else {
        pieces[0].text() + render(pieces.skip(1))
    }
}

/// The tokens of the pieces, in order.
pub open spec fn tokens_of(pieces: Seq<Piece>) -> Seq<TokenView>
    decreases pieces.len(),
{
    if pieces.len() == 0 {
        Seq::empty()
    } else {
        pieces[0].tokens() + tokens_of(pieces.skip(1))
    }
}

/// The number of pieces that are not whitespace.
pub open spec fn count_tokens(pieces: Seq<Piece>) -> nat
    decreases pieces.len(),
{
    if pieces.len() == 0 {
        0
    } else {
        (if pieces[0] is Space {
            0nat
        } else {
            1nat
        }) + count_tokens(pieces.skip(1))
    }
}

/// Every piece is well formed, and neither a word nor a quoted literal
/// follows a word: two words in a row would read as one, and the word that
/// touches an opening quote belongs to the quoted literal.
pub open spec fn separated(pieces: Seq<Piece>, quote: Option<char>) -> bool
    decreases pieces.len(),
{
    pieces.len() > 0 ==> {
        &&& pieces[0].well_formed(quote)
        &&& pieces.len() > 1 ==> !(pieces[0] is Word && (pieces[1] is Word
            || pieces[1] is Quoted))
        &&& separated(pieces.skip(1), quote)
    }
}

/// No piece is quoted.
pub open spec fn unquoted(pieces: Seq<Piece>) -> bool
    decreases pieces.len(),
{
    pieces.len() > 0 ==> !(pieces[0] is Quoted) && unquoted(pieces.skip(1))
}

/// A word in front of a text is gathered whole.
proof fn lemma_scan_word(
    w: Seq<char>,
    rest: Seq<char>,
    quote: Option<char>,
    cur: Seq<char>,
    out: Seq<TokenView>,
)
    requires
        forall|i: int| 0 <= i < w.len() ==> is_word_char(#[trigger] w[i], quote),
    ensures
        scan(w + rest, quote, cur, out) == scan(rest, quote, cur + w, out),
    decreases w.len(),
{
    if w.len() == 0 {
        assert(w + rest =~= rest);
        assert(cur + w =~= cur);
    } else {
        let s = w + rest;
        assert(s[0] == w[0]);
        assert(is_word_char(w[0], quote));
        assert(s.skip(1) =~= w.skip(1) + rest);
        assert forall|i: int| 0 <= i < w.skip(1).len() implies is_word_char(
            #[trigger] w.skip(1)[i],
            quote,
        ) by {
            assert(w.skip(1)[i] == w[i + 1]);
        }
        lemma_scan_word(w.skip(1), rest, quote, cur.push(w[0]), out);
        assert(cur.push(w[0]) + w.skip(1) =~= cur + w);
    }
}

/// Whitespace in front of a text ends the word before it and yields nothing.
proof fn lemma_scan_space(
    sp: Seq<char>,
    rest: Seq<char>,
    quote: Option<char>,
    cur: Seq<char>,
    out: Seq<TokenView>,
)
    requires
        sp.len() > 0,
        forall|i: int| 0 <= i < sp.len() ==> is_space_char(#[trigger] sp[i], quote),
    ensures
        scan(sp + rest, quote, cur, out) == scan(rest, quote, Seq::empty(), flush(cur, out)),
    decreases sp.len(),
{
    let s = sp + rest;
    assert(s[0] == sp[0]);
    assert(is_space_char(sp[0], quote));
    assert(s.skip(1) =~= sp.skip(1) + rest);
    if sp.len() == 1 {
        assert(sp.skip(1) + rest =~= rest);
    } else {
        assert forall|i: int| 0 <= i < sp.skip(1).len() implies is_space_char(
            #[trigger] sp.skip(1)[i],
            quote,
        ) by {
            assert(sp.skip(1)[i] == sp[i + 1]);
        }
        lemma_scan_space(sp.skip(1), rest, quote, Seq::empty(), flush(cur, out));
    }
}

/// The tokens of separated pieces that follow an unfinished word `cur`, which
/// is empty where the first piece is a word or is quoted.
proof fn lemma_scan_pieces(
    pieces: Seq<Piece>,
    quote: Option<char>,
    cur: Seq<char>,
    out: Seq<TokenView>,
)
    requires
        separated(pieces, quote),
        pieces.len() > 0 && (pieces[0] is Word || pieces[0] is Quoted) ==> cur.len() == 0,
    ensures
        scan(render(pieces), quote, cur, out) == Ok::<Seq<TokenView>, LexErrorView>(
            flush(cur, out) + tokens_of(pieces),
        ),
    decreases pieces.len(),
{
    if pieces.len() == 0 {
        assert(flush(cur, out) + tokens_of(pieces) =~= flush(cur, out));
    } else {
        let rest = pieces.skip(1);
        let tail = render(rest);
        if rest.len() > 0 {
            assert(rest[0] == pieces[1]);
        }
        match pieces[0] {
            Piece::Word(w) => {
                lemma_scan_word(w, tail, quote, cur, out);
                assert(cur + w =~= w);
                if rest.len() == 0 {
                    assert(tokens_of(rest) =~= Seq::<TokenView>::empty());
                    assert(flush(w, out) + tokens_of(rest) =~= flush(cur, out) + tokens_of(
                        pieces,
                    ));
                } else {
                    lemma_scan_after_word(rest, quote, w, out);
                    assert(flush(w, out) + tokens_of(rest) =~= flush(cur, out) + tokens_of(
                        pieces,
                    ));
                }
            },
            Piece::Space(sp) => {
                lemma_scan_space(sp, tail, quote, cur, out);
                lemma_scan_pieces(rest, quote, Seq::empty(), flush(cur, out));
                assert(flush(Seq::empty(), flush(cur, out)) + tokens_of(rest) =~= flush(cur, out)
                    + tokens_of(pieces));
            },
            Piece::Quoted(q, front, w) => {
                let next = out.push(TokenView { tok: Tok::Literal, s: front + w });
                lemma_scan_word(front, seq![q] + w + seq![q] + tail, quote, cur, out);
                assert(front + (seq![q] + w + seq![q] + tail) =~= render(pieces));
                assert(cur + front =~= front);
                lemma_quoted_is_literal(w, q, tail, front, out);
                lemma_scan_pieces(rest, quote, Seq::empty(), next);
                assert(flush(Seq::empty(), next) + tokens_of(rest) =~= flush(cur, out)
                    + tokens_of(pieces));
            },
            _ => {
                let s = render(pieces);
                assert(s[0] == pieces[0].text()[0]);
                assert(s.skip(1) =~= tail);
                let next = flush(cur, out).push(paren(s[0]));
                lemma_scan_pieces(rest, quote, Seq::empty(), next);
                assert(flush(Seq::empty(), next) + tokens_of(rest) =~= flush(cur, out)
                    + tokens_of(pieces));
            },
        }
    }
}

/// The same behind a word `cur`, where the first piece is whitespace or a
/// parenthesis.
proof fn lemma_scan_after_word(
    pieces: Seq<Piece>,
    quote: Option<char>,
    cur: Seq<char>,
    out: Seq<TokenView>,
)
    requires
        separated(pieces, quote),
        pieces.len() > 0,
        !(pieces[0] is Word),
        !(pieces[0] is Quoted),
    ensures
        scan(render(pieces), quote, cur, out) == Ok::<Seq<TokenView>, LexErrorView>(
            flush(cur, out) + tokens_of(pieces),
        ),
    decreases pieces.len(), 0nat,
{
    let rest = pieces.skip(1);
    let tail = render(rest);
    match pieces[0] {
        Piece::Space(sp) => {
            lemma_scan_space(sp, tail, quote, cur, out);
            lemma_scan_pieces(rest, quote, Seq::empty(), flush(cur, out));
            assert(flush(Seq::empty(), flush(cur, out)) + tokens_of(rest) =~= flush(cur, out)
                + tokens_of(pieces));
        },
        _ => {
            let s = render(pieces);
            assert(s[0] == pieces[0].text()[0]);
            assert(s.skip(1) =~= tail);
            let next = flush(cur, out).push(paren(s[0]));
            lemma_scan_pieces(rest, quote, Seq::empty(), next);
            assert(flush(Seq::empty(), next) + tokens_of(rest) =~= flush(cur, out) + tokens_of(
                pieces,
            ));
        },
    }
}

/// Pieces have one token for each piece that is not whitespace.
proof fn lemma_count(pieces: Seq<Piece>)
    ensures
        tokens_of(pieces).len() == count_tokens(pieces),
    decreases pieces.len(),
{
    if pieces.len() > 0 {
        lemma_count(pieces.skip(1));
    }
}

/// A text made of parentheses, of words that whitespace or parentheses
/// separate, and of quoted literals has one token for each parenthesis, one
/// for each word and one for each quoted literal, in the order of the text.
/// Whitespace yields no token. A quoted literal is a literal wherever it
/// stands in the text and whatever it spells, a keyword too; the quotes are
/// no part of its text.
pub proof fn lemma_one_token_per_piece(pieces: Seq<Piece>, quote: Option<char>)
    requires
        separated(pieces, quote),
    ensures
        scan(render(pieces), quote, Seq::empty(), Seq::empty()) == Ok::<
            Seq<TokenView>,
            LexErrorView,
        >(tokens_of(pieces)),
        tokens_of(pieces).len() == count_tokens(pieces),
{
    lemma_scan_pieces(pieces, quote, Seq::empty(), Seq::empty());
    assert(flush(Seq::empty(), Seq::empty()) + tokens_of(pieces) =~= tokens_of(pieces));
    lemma_count(pieces);
}

/// The characters before the closing quote make up the quoted literal.
proof fn lemma_quoted(w: Seq<char>, quote: char, rest: Seq<char>, cur: Seq<char>)
    requires
        forall|i: int| 0 <= i < w.len() ==> #[trigger] w[i] != quote,
    ensures
        quoted(w + seq![quote] + rest, quote, cur) == Some((cur + w, rest)),
    decreases w.len(),
{
    let s = w + seq![quote] + rest;
    if w.len() == 0 {
        assert(s[0] == quote);
        assert(s.skip(1) =~= rest);
        assert(cur + w =~= cur);
    } else {
        assert(s[0] == w[0]);
        assert(s.skip(1) =~= w.skip(1) + seq![quote] + rest);
        assert forall|i: int| 0 <= i < w.skip(1).len() implies #[trigger] w.skip(1)[i]
            != quote by {
            assert(w.skip(1)[i] == w[i + 1]);
        }
        lemma_quoted(w.skip(1), quote, rest, cur.push(w[0]));
        assert(cur.push(w[0]) + w.skip(1) =~= cur + w);
    }
}

/// Quoting wins over keywords: with a quote character in force, the text
/// between two quotes is one token with the tag `Literal`, whatever it
/// spells, a keyword too, and whatever it holds, spaces and parentheses
/// too. It continues the word that the opening quote touches.
pub proof fn lemma_quoted_is_literal(
    w: Seq<char>,
    quote: char,
    rest: Seq<char>,
    cur: Seq<char>,
    out: Seq<TokenView>,
)
    requires
        forall|i: int| 0 <= i < w.len() ==> #[trigger] w[i] != quote,
    ensures
        scan(seq![quote] + w + seq![quote] + rest, Some(quote), cur, out) == scan(
            rest,
            Some(quote),
            Seq::empty(),
            out.push(TokenView { tok: Tok::Literal, s: cur + w }),
        ),
{
    let s = seq![quote] + w + seq![quote] + rest;
    assert(s[0] == quote);
    assert(s.skip(1) =~= w + seq![quote] + rest);
    lemma_quoted(w, quote, rest, cur);
}

/// Every token has a text.
pub open spec fn all_filled(tokens: Seq<TokenView>) -> bool {
    forall|i: int| 0 <= i < tokens.len() ==> (#[trigger] tokens[i]).s.len() > 0
}

/// Lexing fails in one way only: the text ends inside a quoted literal.
pub proof fn lemma_fails_only_in_quotes(
    s: Seq<char>,
    quote: Option<char>,
    cur: Seq<char>,
    out: Seq<TokenView>,
)
    ensures
        scan(s, quote, cur, out) matches Err(e) ==> quote is Some && e
            == LexErrorView::UnexpectedEof,
    decreases s.len(),
{
    broadcast use crate::lexer::lemma_quoted_shrinks;

    if s.len() > 0 {
        if quote == Some(s[0]) {
            match quoted(s.skip(1), s[0], cur) {
                Some((text, rest)) => {
                    lemma_fails_only_in_quotes(
                        rest,
                        quote,
                        Seq::empty(),
                        out.push(TokenView { tok: Tok::Literal, s: text }),
                    );
                },
                None => {},
            }
        } else if s[0] == '(' || s[0] == ')' {
            lemma_fails_only_in_quotes(
                s.skip(1),
                quote,
                Seq::empty(),
                flush(cur, out).push(paren(s[0])),
            );
        } else if is_white_space(s[0]) {
            lemma_fails_only_in_quotes(s.skip(1), quote, Seq::empty(), flush(cur, out));
        } else {
            lemma_fails_only_in_quotes(s.skip(1), quote, cur.push(s[0]), out);
        }
    }
}

/// Without quoting, every text has tokens, and none of them is empty: only a
/// quoted literal can be.
pub proof fn lemma_unquoted_tokens_are_filled(s: Seq<char>, cur: Seq<char>, out: Seq<TokenView>)
    requires
        all_filled(out),
    ensures
        scan(s, None, cur, out) matches Ok(tokens) && all_filled(tokens),
    decreases s.len(),
{
    if s.len() > 0 {
        if s[0] == '(' || s[0] == ')' {
            lemma_unquoted_tokens_are_filled(
                s.skip(1),
                Seq::empty(),
                flush(cur, out).push(paren(s[0])),
            );
        } else if is_white_space(s[0]) {
            lemma_unquoted_tokens_are_filled(s.skip(1), Seq::empty(), flush(cur, out));
        } else {
            lemma_unquoted_tokens_are_filled(s.skip(1), cur.push(s[0]), out);
        }
    }
}

/// The pieces with `c` in front of the first, which is a word.
pub open spec fn prefixed(pieces: Seq<Piece>, c: char) -> Seq<Piece>
    recommends
        pieces.len() > 0,
        pieces[0] is Word,
{
    pieces.update(0, Piece::Word(seq![c] + pieces[0]->Word_0))
}

/// The pieces with `c` behind the last, which is a word.
pub open spec fn suffixed(pieces: Seq<Piece>, c: char) -> Seq<Piece>
    recommends
        pieces.len() > 0,
        pieces.last() is Word,
{
    pieces.update(pieces.len() - 1, Piece::Word(pieces.last()->Word_0 + seq![c]))
}

/// Pieces that are separated while a quote is in force are so without it,
/// unless one of them is quoted.
proof fn lemma_separated_without_quote(pieces: Seq<Piece>, quote: Option<char>)
    requires
        separated(pieces, quote),
        unquoted(pieces),
    ensures
        separated(pieces, None),
    decreases pieces.len(),
{
    if pieces.len() > 0 {
        lemma_separated_without_quote(pieces.skip(1), quote);
        if pieces.len() > 1 {
            assert(pieces.skip(1)[0] == pieces[1]);
        }
        match pieces[0] {
            Piece::Word(w) => {
                assert forall|j: int| 0 <= j < w.len() implies is_word_char(
                    #[trigger] w[j],
                    None,
                ) by {
                    assert(is_word_char(w[j], quote));
                }
            },
            Piece::Space(s) => {
                assert forall|j: int| 0 <= j < s.len() implies is_space_char(
                    #[trigger] s[j],
                    None,
                ) by {
                    assert(is_space_char(s[j], quote));
                }
            },
            _ => {},
        }
    }
}

/// No character of separated pieces, none of them quoted, is the quote in
/// force.
proof fn lemma_no_quote(pieces: Seq<Piece>, quote: char)
    requires
        separated(pieces, Some(quote)),
        unquoted(pieces),
    ensures
        forall|i: int| 0 <= i < render(pieces).len() ==> #[trigger] render(pieces)[i] != quote,
    decreases pieces.len(),
{
    if pieces.len() > 0 {
        let rest = pieces.skip(1);
        lemma_no_quote(rest, quote);
        let head = pieces[0].text();
        assert forall|i: int| 0 <= i < head.len() implies #[trigger] head[i] != quote by {
            match pieces[0] {
                Piece::Word(w) => {
                    assert(is_word_char(w[i], Some(quote)));
                },
                Piece::Space(s) => {
                    assert(is_space_char(s[i], Some(quote)));
                },
                _ => {},
            }
        }
        assert forall|i: int| 0 <= i < render(pieces).len() implies #[trigger] render(pieces)[i]
            != quote by {
            if i < head.len() {
                assert(render(pieces)[i] == head[i]);
            } else {
                assert(render(pieces)[i] == render(rest)[i - head.len()]);
            }
        }
    }
}

/// A character in front of the first word.
proof fn lemma_prefixed(pieces: Seq<Piece>, c: char)
    requires
        separated(pieces, None),
        pieces.len() > 0,
        pieces[0] is Word,
        pieces.last() is Word,
        is_word_char(c, None),
    ensures
        separated(prefixed(pieces, c), None),
        render(prefixed(pieces, c)) == seq![c] + render(pieces),
        count_tokens(prefixed(pieces, c)) == count_tokens(pieces),
        prefixed(pieces, c).len() == pieces.len(),
        prefixed(pieces, c)[0] is Word,
        prefixed(pieces, c).last() is Word,
{
    let p = prefixed(pieces, c);
    let w = pieces[0]->Word_0;
    let cw = seq![c] + w;
    assert(p.len() > 0);
    assert(p.skip(1) =~= pieces.skip(1));
    if pieces.len() > 1 {
        assert(p[1] == pieces[1]);
    }
    assert forall|j: int| 0 <= j < cw.len() implies is_word_char(#[trigger] cw[j], None) by {
        if j > 0 {
            assert(cw[j] == w[j - 1]);
            assert(is_word_char(w[j - 1], None));
        }
    }
    assert(p[0].text() + render(p.skip(1)) =~= seq![c] + render(pieces));
}

/// A character behind the last word.
proof fn lemma_suffixed(pieces: Seq<Piece>, c: char)
    requires
        separated(pieces, None),
        pieces.len() > 0,
        pieces.last() is Word,
        is_word_char(c, None),
    ensures
        separated(suffixed(pieces, c), None),
        render(suffixed(pieces, c)) == render(pieces) + seq![c],
        count_tokens(suffixed(pieces, c)) == count_tokens(pieces),
        suffixed(pieces, c).len() == pieces.len(),
        suffixed(pieces, c).last() is Word,
        pieces[0] is Word ==> suffixed(pieces, c)[0] is Word,
    decreases pieces.len(),
{
    let p = suffixed(pieces, c);
    if pieces.len() == 1 {
        let w = pieces[0]->Word_0;
        let wc = w + seq![c];
        assert(p.skip(1) =~= Seq::<Piece>::empty());
        assert(pieces.skip(1) =~= Seq::<Piece>::empty());
        assert forall|j: int| 0 <= j < wc.len() implies is_word_char(#[trigger] wc[j], None) by {
            if j < w.len() {
                assert(wc[j] == w[j]);
                assert(is_word_char(w[j], None));
            }
        }
        assert(render(p.skip(1)) =~= Seq::<char>::empty());
        assert(render(pieces.skip(1)) =~= Seq::<char>::empty());
        assert(render(p) =~= render(pieces) + seq![c]);
    } else {
        let rest = pieces.skip(1);
        assert(rest.last() == pieces.last());
        assert(p.skip(1) =~= suffixed(rest, c));
        assert(p[0] == pieces[0]);
        lemma_suffixed(rest, c);
        if pieces.len() == 2 {
            assert(p[1] is Word);
            assert(pieces[1] is Word);
        } else {
            assert(p[1] == pieces[1]);
        }
        assert(render(p) =~= render(pieces) + seq![c]);
    }
}

/// The pieces with a quote in front of the first and behind the last, which
/// are words.
pub open spec fn in_quotes(pieces: Seq<Piece>, quote: char) -> Seq<Piece>
    recommends
        pieces.len() > 0,
        pieces[0] is Word,
        pieces.last() is Word,
{
    suffixed(prefixed(pieces, quote), quote)
}

/// What the absence of a directive means. Where no quote directive is found,
/// nothing is quoted. Where the directive that forbids spaces in quoted
/// literals is found, nothing is quoted either. Where neither is found, the
/// text is scanned as it stands.
pub proof fn lemma_text_without_directives(text: Seq<char>)
    ensures
        prescan(text) matches Ok(lexer) ==> {
            &&& !found(STRING_QUOTE@, text) ==> lexer.string_quote is None && lexer.quote() is None
            &&& lexer.spaces_in_quotes == !found(SPACE_IN_QUOTED_TOKENS_OFF@, text)
            &&& found(SPACE_IN_QUOTED_TOKENS_OFF@, text) ==> lexer.quote() is None
        },
        compiles(STRING_QUOTE@) && compiles(SPACE_IN_QUOTED_TOKENS_OFF@) && !found(
            STRING_QUOTE@,
            text,
        ) && !found(SPACE_IN_QUOTED_TOKENS_OFF@, text) ==> {
            &&& prescan(text) == Ok::<LexerView, LexErrorView>(
                LexerView {
                    text,
                    string_quote: None,
                    spaces_in_quotes: true,
                    token: Seq::empty(),
                    tokens: Seq::empty(),
                },
            )
            &&& prescan(text)->Ok_0.lex() == scan(text, None, Seq::empty(), Seq::empty())
        },
{
}

/// One of the three characters that can be the quote.
pub open spec fn is_quote_char(c: char) -> bool {
    c == '\'' || c == '"' || c == '$'
}

/// A word of ASCII characters that starts or ends with a quote character is a
/// literal: no keyword is spelled so. Of a word that holds other characters
/// this is not stated, for its lowercase form is only named.
pub proof fn lemma_quote_marks_a_literal(w: Seq<char>, quote: char)
    requires
        is_quote_char(quote),
        is_ascii_text(w),
        w.len() > 0,
        w[0] == quote || w.last() == quote,
    ensures
        tag(w) == Tok::Literal,
{
    let lower = lowercase(w);
    assert(lower.len() == w.len());
    assert(lower[0] == ascii_lowercase(w[0]));
    assert(lower.last() == ascii_lowercase(w.last()));
    lemma_keyword_ends(lower);
}

/// The text of pieces put together is their texts put together.
proof fn lemma_render_concat(a: Seq<Piece>, b: Seq<Piece>)
    ensures
        render(a + b) == render(a) + render(b),
    decreases a.len(),
{
    if a.len() == 0 {
        assert(a + b =~= b);
        assert(render(a) + render(b) =~= render(b));
    } else {
        assert((a + b)[0] == a[0]);
        assert((a + b).skip(1) =~= a.skip(1) + b);
        lemma_render_concat(a.skip(1), b);
        assert(a[0].text() + (render(a.skip(1)) + render(b)) =~= (a[0].text() + render(
            a.skip(1),
        )) + render(b));
    }
}

/// The tokens of pieces put together are their tokens put together.
proof fn lemma_tokens_concat(a: Seq<Piece>, b: Seq<Piece>)
    ensures
        tokens_of(a + b) == tokens_of(a) + tokens_of(b),
    decreases a.len(),
{
    if a.len() == 0 {
        assert(a + b =~= b);
        assert(tokens_of(a) + tokens_of(b) =~= tokens_of(b));
    } else {
        assert((a + b)[0] == a[0]);
        assert((a + b).skip(1) =~= a.skip(1) + b);
        lemma_tokens_concat(a.skip(1), b);
        assert(a[0].tokens() + (tokens_of(a.skip(1)) + tokens_of(b)) =~= (a[0].tokens()
            + tokens_of(a.skip(1))) + tokens_of(b));
    }
}

/// Pieces put together are separated where both parts are and no word runs
/// across the seam.
proof fn lemma_separated_concat(a: Seq<Piece>, b: Seq<Piece>, quote: Option<char>)
    requires
        separated(a, quote),
        separated(b, quote),
        a.len() > 0 && b.len() > 0 ==> !(a.last() is Word && (b[0] is Word || b[0] is Quoted)),
    ensures
        separated(a + b, quote),
    decreases a.len(),
{
    if a.len() == 0 {
        assert(a + b =~= b);
    } else {
        let rest = a.skip(1);
        assert((a + b)[0] == a[0]);
        assert((a + b).skip(1) =~= rest + b);
        if rest.len() > 0 {
            assert(rest.last() == a.last());
            assert((a + b)[1] == a[1]);
        } else if b.len() > 0 {
            assert((a + b)[1] == b[0]);
            assert(a.last() == a[0]);
        }
        lemma_separated_concat(rest, b, quote);
    }
}

/// The parts of separated pieces are separated, no word runs across the
/// seam, and where the whole holds nothing quoted the parts hold nothing
/// quoted.
proof fn lemma_separated_split(a: Seq<Piece>, b: Seq<Piece>, quote: Option<char>)
    requires
        separated(a + b, quote),
    ensures
        separated(a, quote),
        separated(b, quote),
        a.len() > 0 && b.len() > 0 ==> !(a.last() is Word && (b[0] is Word || b[0] is Quoted)),
        unquoted(a + b) ==> unquoted(a) && unquoted(b),
    decreases a.len(),
{
    if a.len() == 0 {
        assert(a + b =~= b);
    } else {
        let rest = a.skip(1);
        assert((a + b)[0] == a[0]);
        assert((a + b).skip(1) =~= rest + b);
        if rest.len() > 0 {
            assert(rest.last() == a.last());
            assert((a + b)[1] == a[1]);
        } else if b.len() > 0 {
            assert((a + b)[1] == b[0]);
            assert(a.last() == a[0]);
        }
        lemma_separated_split(rest, b, quote);
    }
}

/// What turning quoting off does to a quoted literal of several words,
/// wherever it stands in a text. `run` is what stands between the quotes:
/// words with whitespace or parentheses between them, of which none holds the
/// quote. `before` and `after` are the text around the two quotes. With
/// quoting in force the run is one token, a literal with the text of the run.
/// Without, it is one token for each of its words and parentheses, and the
/// quotes are ordinary characters, one of the first word and one of the last.
/// The rest of the text has the same tokens either way.
pub proof fn lemma_quoting_off_splits(
    before: Seq<Piece>,
    run: Seq<Piece>,
    after: Seq<Piece>,
    quote: char,
)
    requires
        separated(before + (run + after), Some(quote)),
        unquoted(before + (run + after)),
        run.len() > 0,
        run[0] is Word,
        run.last() is Word,
        quote != '(' && quote != ')' && !is_white_space(quote),
    ensures
        scan(
            render(before) + (seq![quote] + render(run) + seq![quote]) + render(after),
            Some(quote),
            Seq::empty(),
            Seq::empty(),
        ) == Ok::<Seq<TokenView>, LexErrorView>(
            tokens_of(before) + seq![TokenView { tok: Tok::Literal, s: render(run) }] + tokens_of(
                after,
            ),
        ),
        scan(
            render(before) + (seq![quote] + render(run) + seq![quote]) + render(after),
            None,
            Seq::empty(),
            Seq::empty(),
        ) == Ok::<Seq<TokenView>, LexErrorView>(
            tokens_of(before) + tokens_of(in_quotes(run, quote)) + tokens_of(after),
        ),
        tokens_of(in_quotes(run, quote)).len() == count_tokens(run),
        in_quotes(run, quote)[0] is Word,
        in_quotes(run, quote).last() is Word,
{
    let text = render(before) + (seq![quote] + render(run) + seq![quote]) + render(after);
    lemma_separated_split(before, run + after, Some(quote));
    lemma_separated_split(run, after, Some(quote));
    // In force: the run is one quoted piece.
    let literal = seq![Piece::Quoted(quote, Seq::empty(), render(run))];
    lemma_no_quote(run, quote);
    assert(literal[0] == Piece::Quoted(quote, Seq::empty(), render(run)));
    assert(Seq::<char>::empty() + render(run) =~= render(run));
    assert(literal.skip(1) =~= Seq::<Piece>::empty());
    assert(separated(literal.skip(1), Some(quote)));
    assert(separated(literal, Some(quote)));
    assert(render(literal.skip(1)) =~= Seq::<char>::empty());
    assert(render(literal) =~= seq![quote] + render(run) + seq![quote]);
    assert(tokens_of(literal.skip(1)) =~= Seq::<TokenView>::empty());
    assert(tokens_of(literal) =~= seq![TokenView { tok: Tok::Literal, s: render(run) }]);
    lemma_separated_concat(literal, after, Some(quote));
    lemma_separated_concat(before, literal + after, Some(quote));
    lemma_render_concat(literal, after);
    lemma_render_concat(before, literal + after);
    lemma_tokens_concat(literal, after);
    lemma_tokens_concat(before, literal + after);
    lemma_one_token_per_piece(before + (literal + after), Some(quote));
    assert(render(before) + (render(literal) + render(after)) =~= text);
    assert(tokens_of(before) + (tokens_of(literal) + tokens_of(after)) =~= tokens_of(before)
        + seq![TokenView { tok: Tok::Literal, s: render(run) }] + tokens_of(after));
    // Not in force: the quotes belong to the first and to the last word.
    let words = in_quotes(run, quote);
    lemma_separated_without_quote(before, Some(quote));
    lemma_separated_without_quote(run, Some(quote));
    lemma_separated_without_quote(after, Some(quote));
    lemma_prefixed(run, quote);
    lemma_suffixed(prefixed(run, quote), quote);
    lemma_separated_concat(words, after, None);
    lemma_separated_concat(before, words + after, None);
    lemma_render_concat(words, after);
    lemma_render_concat(before, words + after);
    lemma_tokens_concat(words, after);
    lemma_tokens_concat(before, words + after);
    lemma_one_token_per_piece(before + (words + after), None);
    lemma_count(words);
    assert(render(before) + (render(words) + render(after)) =~= text);
    assert(tokens_of(before) + (tokens_of(words) + tokens_of(after)) =~= tokens_of(before)
        + tokens_of(words) + tokens_of(after));
}

} // verus!
