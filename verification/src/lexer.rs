//! Tokenizer for track-title strings.
//!
//! A title is scanned left to right into a stream of tokens: one-character
//! punctuation tokens, keyword tokens for the words that announce a remix or
//! a featured artist, and `Literal` tokens carrying free text.  The stream is
//! always terminated by an `EOF` sentinel.
//!
//! The spec-level model is [`lex_spec`]: the token stream of a character
//! sequence, built from [`scan_from`] one scan step at a time.  [`Scanner`]
//! is the executable scanner, proved to produce exactly that stream.

use vstd::prelude::*;

verus! {

/// The kind of a lexed token.  `And` covers both `&` and `,`; `Mix` and
/// `Feat` are the keyword tokens; `EOF` ends every stream.
#[derive(Clone, Copy, Debug, PartialEq, Eq, Structural)]
pub enum TokenType {
    And,
    Column,
    LeftBracket,
    LeftParen,
    Literal,
    Minus,
    Plus,
    Feat,
    RightBracket,
    RightParen,
    Mix,
    EOF,
    Dot,
}

/// One lexed token.  `lexeme` is `Some` exactly for `Literal` tokens.
#[derive(Debug, Clone)]
pub struct Token {
    pub token_type: TokenType,
    pub lexeme: Option<String>,
}

/// Ghost image of a token: its kind and, for a literal, its text
/// (empty for every other kind).
pub type TokenView = (TokenType, Seq<char>);

pub open spec fn token_view(t: Token) -> TokenView {
    (
        t.token_type,
        match t.lexeme {
            Option::Some(s) => s@,
            Option::None => Seq::empty(),
        },
    )
}

pub open spec fn tokens_view(ts: Seq<Token>) -> Seq<TokenView> {
    ts.map_values(|t: Token| token_view(t))
}

pub proof fn lemma_tokens_view_push(ts: Seq<Token>, t: Token)
    ensures
        tokens_view(ts.push(t)) == tokens_view(ts).push(token_view(t)),
{
    assert(tokens_view(ts.push(t)) =~= tokens_view(ts).push(token_view(t)));
}

/// A token is well formed when it carries a lexeme exactly if it is a literal.
pub open spec fn wf_token(t: Token) -> bool {
    t.token_type == TokenType::Literal <==> t.lexeme is Some
}

pub open spec fn wf_tokens(ts: Seq<Token>) -> bool {
    forall|k: int| 0 <= k < ts.len() ==> wf_token(#[trigger] ts[k])
}

/// The characters that lex as one-character tokens.  A NUL character lexes
/// as an end-of-input marker, so text after one is never reached.
pub open spec fn is_special(c: char) -> bool {
    ||| c == '('
    ||| c == ')'
    ||| c == '['
    ||| c == ']'
    ||| c == '&'
    ||| c == ','
    ||| c == '-'
    ||| c == '+'
    ||| c == ':'
    ||| c == '.'
    ||| c == '\0'
}

/// The token kind of a special character (meaningful only when
/// `is_special(c)` holds).
pub open spec fn special_kind(c: char) -> TokenType {
    if c == '(' {
        TokenType::LeftParen
    } else if c == ')' {
        TokenType::RightParen
    } else if c == '[' {
        TokenType::LeftBracket
    } else if c == ']' {
        TokenType::RightBracket
    } else if c == '&' || c == ',' {
        TokenType::And
    } else if c == '-' {
        TokenType::Minus
    } else if c == '+' {
        TokenType::Plus
    } else if c == ':' {
        TokenType::Column
    } else if c == '.' {
        TokenType::Dot
    } else {
        TokenType::EOF
    }
}

/// Space and tab: skipped by the scanner, acting only as word boundaries.
pub open spec fn is_blank(c: char) -> bool {
    c == ' ' || c == '\t'
}

pub open spec fn is_ascii_letter(c: char) -> bool {
    (65 <= c as u32 && (c as u32) <= 90) || (97 <= c as u32 && (c as u32) <= 122)
}

/// A vinyl side-and-slot code: exactly one ASCII letter followed by one
/// digit `1` through `9`.
pub open spec fn is_track_side_seq(s: Seq<char>) -> bool {
    s.len() == 2 && is_ascii_letter(s[0]) && 49 <= s[1] as u32 && (s[1] as u32) <= 57
}

/// Where the word that began at `start` ends, scanning from `i`.  A word runs
/// up to the next special character or blank, except that a dot is absorbed
/// into the word unless the text gathered so far is a track-side code (so
/// `A1.` stops before the dot while `Tobias.` keeps it).
pub open spec fn word_end(s: Seq<char>, start: int, i: int) -> int
    decreases s.len() - i,
{
    if i < 0 || i >= s.len() {
        i
    } else if s[i] == '.' {
        if is_track_side_seq(s.subrange(start, i)) {
            i
        } else {
            word_end(s, start, i + 1)
        }
    } else if is_special(s[i]) || is_blank(s[i]) {
        i
    } else {
        word_end(s, start, i + 1)
    }
}

pub proof fn lemma_word_end_bounds(s: Seq<char>, start: int, i: int)
    requires
        0 <= i <= s.len(),
    ensures
        i <= word_end(s, start, i) <= s.len(),
    decreases s.len() - i,
{
    if i < s.len() {
        if s[i] == '.' && !is_track_side_seq(s.subrange(start, i)) {
            lemma_word_end_bounds(s, start, i + 1);
        } else if !(is_special(s[i]) || is_blank(s[i])) {
            lemma_word_end_bounds(s, start, i + 1);
        }
    }
}

/// The keyword table, matched case-sensitively: words announcing a remix or
/// a featured artist become keyword tokens, every other word is a literal.
pub open spec fn keyword_token(w: Seq<char>) -> TokenType {
    if w == "remix"@ || w == "Remix"@ || w == "mix"@ || w == "Mix"@ || w == "instrumental"@ || w
        == "instr."@ || w == "reconstruction"@ || w == "Reconstruction"@ {
        TokenType::Mix
    } else if w == "feat"@ || w == "feat."@ {
        TokenType::Feat
    } else {
        TokenType::Literal
    }
}

/// The token a completed word turns into.
pub open spec fn word_token(w: Seq<char>) -> TokenView {
    let k = keyword_token(w);
    (k, if k == TokenType::Literal { w } else { Seq::empty() })
}

/// The position at which the next scan step resumes after the step at `i`.
pub open spec fn scan_next(s: Seq<char>, i: int) -> int {
    if is_special(s[i]) || is_blank(s[i]) {
        i + 1
    } else {
        word_end(s, i, i + 1)
    }
}

/// The tokens (none or one) emitted by the scan step at `i`.
pub open spec fn scan_emit(s: Seq<char>, i: int) -> Seq<TokenView> {
    if is_special(s[i]) {
        seq![(special_kind(s[i]), Seq::<char>::empty())]
    } else if is_blank(s[i]) {
        seq![]
    } else {
        seq![word_token(s.subrange(i, word_end(s, i, i + 1)))]
    }
}

/// All tokens emitted from position `i` on (without the EOF sentinel).
pub open spec fn scan_from(s: Seq<char>, i: int) -> Seq<TokenView>
    decreases s.len() - i,
{
    if i < 0 || i >= s.len() {
        seq![]
    } else {
        proof {
            lemma_word_end_bounds(s, i, i + 1);
        }
        scan_emit(s, i) + scan_from(s, scan_next(s, i))
    }
}

/// The full token stream of a title: its scan, closed by the EOF sentinel.
pub open spec fn lex_spec(s: Seq<char>) -> Seq<TokenView> {
    scan_from(s, 0).push((TokenType::EOF, Seq::<char>::empty()))
}

/// `s` with every non-ASCII character deleted.
pub open spec fn ascii_only(s: Seq<char>) -> Seq<char>
    decreases s.len(),
{
    if s.len() == 0 {
        Seq::empty()
    } else {
        let pre = ascii_only(s.drop_last());
        if (s.last() as u32) < 128 {
            pre.push(s.last())
        } else {
            pre
        }
    }
}

/// Deletes every non-ASCII character from `input`; the scanner's
/// preprocessing step.
pub fn strip_non_ascii(input: &str) -> (r: String)
    ensures
        r@ == ascii_only(input@),
{
    let n: usize = input.unicode_len();
    let mut out = String::new();
    let mut i: usize = 0;
    while i < n
        invariant
            n == input@.len(),
            i <= n,
            out@ == ascii_only(input@.take(i as int)),
        decreases n - i,
    {
        let c = input.get_char(i);
        if (c as u32) < 128 {
            let piece = input.substring_char(i, i + 1);
            proof {
                assert(piece@ =~= seq![input@[i as int]]);
            }
            out.append(piece);
        }
        proof {
            assert(input@.take(i + 1).drop_last() =~= input@.take(i as int));
            assert(input@.take(i + 1).last() == input@[i as int]);
            assert(out@ =~= ascii_only(input@.take(i + 1)));
        }
        i = i + 1;
    }
    proof {
        assert(input@.take(n as int) =~= input@);
    }
    out
}

/// Compares two string slices character by character.
pub fn str_eq(a: &str, b: &str) -> (r: bool)
    ensures
        r == (a@ == b@),
{
    let an: usize = a.unicode_len();
    let bn: usize = b.unicode_len();
    if an != bn {
        return false;
    }
    let mut i: usize = 0;
    while i < an
        invariant
            an == a@.len(),
            bn == b@.len(),
            an == bn,
            i <= an,
            forall|k: int| 0 <= k < i ==> a@[k] == b@[k],
        decreases an - i,
    {
        if a.get_char(i) != b.get_char(i) {
            return false;
        }
        i = i + 1;
    }
    proof {
        assert(a@ =~= b@);
    }
    true
}

/// Whether `value` is a track-side code such as `A1` or `B2`.
pub fn is_track_side(value: &str) -> (r: bool)
    ensures
        r == is_track_side_seq(value@),
{
    if value.unicode_len() != 2 {
        return false;
    }
    let c0 = value.get_char(0);
    let c1 = value.get_char(1);
    let u0 = c0 as u32;
    let u1 = c1 as u32;
    ((65 <= u0 && u0 <= 90) || (97 <= u0 && u0 <= 122)) && 49 <= u1 && u1 <= 57
}

/// The executable scanner: a single left-to-right pass over the input.
pub struct Scanner {
    input: String,
    current: usize,
    end: usize,
    start: usize,
    tokens: Vec<Token>,
}

impl Scanner {
    pub closed spec fn wf(&self) -> bool {
        &&& self.end == self.input@.len()
        &&& self.current <= self.end
    }

    pub closed spec fn input_view(&self) -> Seq<char> {
        self.input@
    }

    pub closed spec fn emitted(&self) -> Seq<TokenView> {
        tokens_view(self.tokens@)
    }

    pub closed spec fn cursor(&self) -> int {
        self.current as int
    }

    pub fn new(input: String) -> (s: Self)
        ensures
            s.wf(),
            s.input_view() == input@,
            s.emitted() == Seq::<TokenView>::empty(),
            s.cursor() == 0,
    {
        let end = input.as_str().unicode_len();
        let s = Scanner { input, current: 0, end, start: 0, tokens: Vec::new() };
        proof {
            assert(s.emitted() =~= Seq::<TokenView>::empty());
        }
        s
    }

    /// Scans the whole input and returns its tokens, EOF sentinel included.
    pub fn scan(self) -> (r: Vec<Token>)
        requires
            self.wf(),
            self.cursor() == 0,
            self.emitted() == Seq::<TokenView>::empty(),
        ensures
            tokens_view(r@) == lex_spec(self.input_view()),
            wf_tokens(r@),
            r@.len() > 0,
            r@.last().token_type == TokenType::EOF,
    {
        let ghost s = self.input@;
        let mut this = self;
        proof {
            assert(this.emitted() + scan_from(s, 0) =~= scan_from(s, 0));
        }
        while this.current < this.end
            invariant
                this.wf(),
                this.input@ == s,
                wf_tokens(this.tokens@),
                scan_from(s, 0) == this.emitted() + scan_from(s, this.current as int),
            decreases this.end - this.current,
        {
            let ghost c_prev = this.current as int;
            let ghost emitted_prev = this.emitted();
            this.start = this.current;
            this.scan_token();
            proof {
                lemma_word_end_bounds(s, c_prev, c_prev + 1);
                assert(scan_from(s, c_prev) =~= scan_emit(s, c_prev) + scan_from(
                    s,
                    scan_next(s, c_prev),
                ));
                assert(this.emitted() + scan_from(s, this.current as int) =~= emitted_prev
                    + scan_from(s, c_prev));
            }
        }
        proof {
            assert(scan_from(s, this.current as int) =~= Seq::<TokenView>::empty());
            assert(this.emitted() =~= scan_from(s, 0));
        }
        let eof = Token { token_type: TokenType::EOF, lexeme: None };
        let ghost toks_before = this.tokens@;
        this.tokens.push(eof);
        proof {
            lemma_tokens_view_push(toks_before, eof);
            assert(tokens_view(this.tokens@) =~= tokens_view(toks_before).push(
                (TokenType::EOF, Seq::<char>::empty()),
            ));
            assert forall|k: int| 0 <= k < this.tokens@.len() implies wf_token(
                #[trigger] this.tokens@[k],
            ) by {
                if k < toks_before.len() {
                    assert(this.tokens@[k] == toks_before[k]);
                    assert(wf_token(toks_before[k]));
                } else {
                    assert(this.tokens@[k] == eof);
                }
            }
        }
        this.tokens
    }

    /// One scan step: consumes a special character, a blank, or a whole word,
    /// and emits the tokens the model assigns to that step.
    fn scan_token(&mut self)
        requires
            old(self).wf(),
            old(self).current < old(self).end,
            old(self).start == old(self).current,
        ensures
            final(self).wf(),
            final(self).input@ == old(self).input@,
            final(self).end == old(self).end,
            final(self).current as int == scan_next(old(self).input@, old(self).current as int),
            final(self).tokens@.len() >= old(self).tokens@.len(),
            wf_tokens(old(self).tokens@) ==> wf_tokens(final(self).tokens@),
            final(self).emitted() == old(self).emitted() + scan_emit(
                old(self).input@,
                old(self).current as int,
            ),
    {
        let ghost s = self.input@;
        let ghost c0 = self.current as int;
        let ch = self.advance();
        match Self::special_token_of(ch) {
            Some(v) => {
                self.add_token(v, None);
                proof {
                    assert(self.emitted() =~= old(self).emitted() + scan_emit(s, c0));
                }
            },
            None => {
                if ch == ' ' || ch == '\t' {
                    proof {
                        assert(self.emitted() =~= old(self).emitted() + scan_emit(s, c0));
                    }
                } else {
                    let word = self.keyword();
                    let kind = Self::keyword_lookup(&word);
                    if kind == TokenType::Literal {
                        self.add_token(TokenType::Literal, Some(word));
                    } else {
                        self.add_token(kind, None);
                    }
                    proof {
                        assert(self.emitted() =~= old(self).emitted() + scan_emit(s, c0));
                    }
                }
            },
        }
    }

    /// The one-character token a special character stands for, if any.
    fn special_token_of(ch: char) -> (r: Option<TokenType>)
        ensures
            r == if is_special(ch) {
                Some(special_kind(ch))
            } else {
                None::<TokenType>
            },
    {
        match ch {
            '(' => Some(TokenType::LeftParen),
            ')' => Some(TokenType::RightParen),
            '[' => Some(TokenType::LeftBracket),
            ']' => Some(TokenType::RightBracket),
            '&' => Some(TokenType::And),
            ',' => Some(TokenType::And),
            '-' => Some(TokenType::Minus),
            '+' => Some(TokenType::Plus),
            ':' => Some(TokenType::Column),
            '.' => Some(TokenType::Dot),
            '\0' => Some(TokenType::EOF),
            _ => None,
        }
    }

    /// Looks a completed word up in the keyword table.
    fn keyword_lookup(word: &String) -> (r: TokenType)
        ensures
            r == keyword_token(word@),
    {
        let w = word.as_str();
        if str_eq(w, "remix") || str_eq(w, "Remix") || str_eq(w, "mix") || str_eq(w, "Mix")
            || str_eq(w, "instrumental") || str_eq(w, "instr.") || str_eq(w, "reconstruction")
            || str_eq(w, "Reconstruction") {
            TokenType::Mix
        } else if str_eq(w, "feat") || str_eq(w, "feat.") {
            TokenType::Feat
        } else {
            TokenType::Literal
        }
    }

    /// Scans to the end of the word that began at `self.start` and returns it.
    fn keyword(&mut self) -> (w: String)
        requires
            old(self).wf(),
            old(self).start < old(self).current <= old(self).end,
        ensures
            final(self).wf(),
            final(self).input@ == old(self).input@,
            final(self).end == old(self).end,
            final(self).start == old(self).start,
            final(self).tokens@ == old(self).tokens@,
            final(self).current as int == word_end(
                old(self).input@,
                old(self).start as int,
                old(self).current as int,
            ),
            old(self).current <= final(self).current,
            w@ == old(self).input@.subrange(
                old(self).start as int,
                final(self).current as int,
            ),
    {
        let ghost s = self.input@;
        let ghost start0 = self.start as int;
        let ghost c0 = self.current as int;
        loop
            invariant
                self.wf(),
                self.input@ == s,
                self.end == old(self).end,
                self.start == old(self).start,
                self.tokens@ == old(self).tokens@,
                start0 == self.start as int,
                start0 < self.current as int <= self.end as int,
                c0 <= self.current as int,
                word_end(s, start0, c0) == word_end(s, start0, self.current as int),
            ensures
                self.current as int == word_end(s, start0, c0),
            decreases self.end - self.current,
        {
            let next_char = self.peek();
            if next_char == '.' {
                let part = self.input.as_str().substring_char(self.start, self.current);
                if is_track_side(part) {
                    proof {
                        // a dot after a track-side code ends the word here
                        assert(self.current < self.end);
                        assert(s[self.current as int] == '.');
                        assert(word_end(s, start0, self.current as int) == self.current as int);
                    }
                    break;
                }
                // the dot is absorbed into the word
            } else {
                let special = Self::special_token_of(next_char);
                if special.is_some() || next_char == ' ' || next_char == '\t' {
                    proof {
                        // a delimiter, a blank, or the end of the input ends the word
                        if self.current < self.end {
                            assert(s[self.current as int] == next_char);
                            assert(word_end(s, start0, self.current as int)
                                == self.current as int);
                        } else {
                            assert(word_end(s, start0, self.current as int)
                                == self.current as int);
                        }
                    }
                    break;
                }
            }
            proof {
                // `peek` returned a real character, so we are not at the end
                assert(self.current < self.end);
                assert(word_end(s, start0, self.current as int) == word_end(
                    s,
                    start0,
                    self.current + 1,
                ));
            }
            self.advance();
        }
        let w = self.input.as_str().substring_char(self.start, self.current);
        w.to_owned()
    }

    /// Consumes and returns the character at the cursor.
    fn advance(&mut self) -> (c: char)
        requires
            old(self).wf(),
            old(self).current < old(self).end,
        ensures
            final(self).wf(),
            final(self).input@ == old(self).input@,
            final(self).end == old(self).end,
            final(self).start == old(self).start,
            final(self).tokens@ == old(self).tokens@,
            final(self).current == old(self).current + 1,
            c == old(self).input@[old(self).current as int],
    {
        let ch = self.input.as_str().get_char(self.current);
        self.current = self.current + 1;
        ch
    }

    /// The character at the cursor, or NUL at the end of the input.
    fn peek(&self) -> (c: char)
        requires
            self.wf(),
        ensures
            c == if self.current < self.end {
                self.input@[self.current as int]
            } else {
                '\0'
            },
    {
        if self.current >= self.end {
            '\0'
        } else {
            self.input.as_str().get_char(self.current)
        }
    }

    fn add_token(&mut self, token_type: TokenType, lexeme: Option<String>)
        requires
            token_type == TokenType::Literal <==> lexeme is Some,
        ensures
            final(self).input@ == old(self).input@,
            final(self).end == old(self).end,
            final(self).start == old(self).start,
            final(self).current == old(self).current,
            final(self).tokens@.len() == old(self).tokens@.len() + 1,
            wf_tokens(old(self).tokens@) ==> wf_tokens(final(self).tokens@),
            final(self).emitted() == old(self).emitted().push(
                (
                    token_type,
                    match lexeme {
                        Option::Some(s) => s@,
                        Option::None => Seq::<char>::empty(),
                    },
                ),
            ),
    {
        let token = Token { token_type, lexeme };
        let ghost toks_before = self.tokens@;
        self.tokens.push(token);
        proof {
            lemma_tokens_view_push(toks_before, token);
            assert(tokens_view(self.tokens@) =~= tokens_view(toks_before).push(
                token_view(token),
            ));
            if wf_tokens(toks_before) {
                assert forall|k: int| 0 <= k < self.tokens@.len() implies wf_token(
                    #[trigger] self.tokens@[k],
                ) by {
                    if k < toks_before.len() {
                        assert(wf_token(toks_before[k]));
                    }
                }
            }
        }
    }
}

} // verus!
