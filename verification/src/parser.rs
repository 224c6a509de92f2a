//! Grammar-driven parser for token streams.
//!
//! The parser walks the token stream of a title with one token of lookahead
//! and lookbehind, gathering runs of literals and dispatching on the token
//! that stops each run.  It emits an ordered sequence of semantic fragments:
//! artist names, the track name, remixer names, the catalog label and the
//! track side.
//!
//! The spec-level model is [`parse_from`]: one loop step of the dispatch per
//! recursive call.  [`Parser`] is the executable parser, proved to emit
//! exactly the fragments of the model.

use vstd::prelude::*;

use crate::lexer::{
    is_track_side, is_track_side_seq, lex_spec, tokens_view, wf_token, wf_tokens, Scanner, Token,
    TokenType, TokenView,
};

verus! {

/// A semantic fragment of a title.
#[derive(Debug, Clone, PartialEq, Eq)]
pub enum TrackPart {
    ArtistName(String),
    Label(String),
    Remix(String),
    TrackName(String),
    TrackSide(String),
}

/// The kind of a fragment, without its text.
#[derive(Clone, Copy, Debug, PartialEq, Eq, Structural)]
pub enum PartKind {
    ArtistName,
    Label,
    Remix,
    TrackName,
    TrackSide,
}

/// Ghost image of a fragment: its kind and its text.
pub type PartView = (PartKind, Seq<char>);

pub open spec fn part_view(p: TrackPart) -> PartView {
    match p {
        TrackPart::ArtistName(s) => (PartKind::ArtistName, s@),
        TrackPart::Label(s) => (PartKind::Label, s@),
        TrackPart::Remix(s) => (PartKind::Remix, s@),
        TrackPart::TrackName(s) => (PartKind::TrackName, s@),
        TrackPart::TrackSide(s) => (PartKind::TrackSide, s@),
    }
}

pub open spec fn parts_view(ps: Seq<TrackPart>) -> Seq<PartView> {
    ps.map_values(|p: TrackPart| part_view(p))
}

pub proof fn lemma_parts_view_push(ps: Seq<TrackPart>, p: TrackPart)
    ensures
        parts_view(ps.push(p)) == parts_view(ps).push(part_view(p)),
{
    assert(parts_view(ps.push(p)) =~= parts_view(ps).push(part_view(p)));
}

/// The first position at or after `i` whose token is not a literal.
pub open spec fn lit_run_end(t: Seq<TokenView>, i: int) -> int
    decreases t.len() - i,
{
    if i < 0 || i >= t.len() {
        i
    } else if t[i].0 == TokenType::Literal {
        lit_run_end(t, i + 1)
    } else {
        i
    }
}

pub proof fn lemma_lit_run_end_bounds(t: Seq<TokenView>, i: int)
    ensures
        i <= lit_run_end(t, i),
        0 <= i <= t.len() ==> lit_run_end(t, i) <= t.len(),
    decreases t.len() - i,
{
    if 0 <= i < t.len() && t[i].0 == TokenType::Literal {
        lemma_lit_run_end_bounds(t, i + 1);
    }
}

/// The lexemes of the literal run `[i, j)`, joined with single spaces.
pub open spec fn join_run(t: Seq<TokenView>, i: int, j: int) -> Seq<char>
    decreases j - i,
{
    if j <= i {
        Seq::empty()
    } else if j - 1 == i {
        t[i].1
    } else {
        join_run(t, i, j - 1) + seq![' '] + t[j - 1].1
    }
}

/// Backward context scan: from `i` toward the start, does a left parenthesis
/// appear before any minus?
pub open spec fn back_to_paren(t: Seq<TokenView>, i: int) -> bool
    decreases i + 1,
{
    if i < 0 || i >= t.len() {
        false
    } else if t[i].0 == TokenType::LeftParen {
        true
    } else if t[i].0 == TokenType::Minus {
        false
    } else {
        back_to_paren(t, i - 1)
    }
}

/// Forward context scan: from `i` toward the end, does a mix keyword appear
/// before any right parenthesis?
pub open spec fn fwd_to_mix(t: Seq<TokenView>, i: int) -> bool
    decreases t.len() - i,
{
    if i < 0 || i >= t.len() {
        false
    } else if t[i].0 == TokenType::Mix {
        true
    } else if t[i].0 == TokenType::RightParen {
        false
    } else {
        fwd_to_mix(t, i + 1)
    }
}

/// The remixer-context test at cursor `i`: inside an open parenthesis group
/// (no dash seen scanning backward first) that a mix keyword closes.
pub open spec fn is_remixer_at(t: Seq<TokenView>, i: int) -> bool {
    back_to_paren(t, i) && fwd_to_mix(t, i)
}

/// One loop step of the parser per recursive call: gather the literal run
/// starting at `i`, dispatch on the token that stopped it, and continue with
/// the fragments gathered so far in `acc`.  The guards returning `acc` at an
/// out-of-range position are unreachable on an EOF-terminated stream.
pub open spec fn parse_from(t: Seq<TokenView>, i: int, acc: Seq<PartView>) -> Seq<PartView>
    decreases t.len() - i,
    via parse_from_decreases
{
    if i < 0 || i >= t.len() || t[i].0 == TokenType::EOF {
        acc
    } else {
        let j = lit_run_end(t, i);
        if j >= t.len() {
            acc
        } else {
            let part = join_run(t, i, j);
            match t[j].0 {
                TokenType::Dot | TokenType::Column => {
                    let acc1 = if is_track_side_seq(part) {
                        acc.push((PartKind::TrackSide, part))
                    } else {
                        acc
                    };
                    parse_from(t, j + 1, acc1)
                },
                TokenType::Minus => {
                    if j > 0 && t[j - 1].0 == TokenType::Mix {
                        let k = lit_run_end(t, j + 1);
                        if k >= t.len() {
                            acc
                        } else {
                            let acc1 = acc.push((PartKind::TrackName, join_run(t, j + 1, k)));
                            let next = if t[k].0 == TokenType::EOF {
                                k
                            } else {
                                k + 1
                            };
                            parse_from(t, next, acc1)
                        }
                    } else if part.len() > 0 {
                        parse_from(t, j + 1, acc.push((PartKind::ArtistName, part)))
                    } else {
                        parse_from(t, j + 1, acc)
                    }
                },
                TokenType::And | TokenType::Feat => {
                    let first_kind = if is_remixer_at(t, j) {
                        PartKind::Remix
                    } else {
                        PartKind::ArtistName
                    };
                    let acc1 = acc.push((first_kind, part));
                    let k = lit_run_end(t, j + 1);
                    if k >= t.len() {
                        acc1
                    } else {
                        let part2 = join_run(t, j + 1, k);
                        if is_remixer_at(t, k) {
                            let acc2 = acc1.push((PartKind::Remix, part2));
                            let next = if t[k].0 == TokenType::EOF {
                                k
                            } else {
                                k + 1
                            };
                            parse_from(t, next, acc2)
                        } else {
                            parse_from(t, k, acc1.push((PartKind::ArtistName, part2)))
                        }
                    }
                },
                TokenType::LeftParen => {
                    if part.len() == 0 && acc.len() > 0 {
                        let k = lit_run_end(t, j + 1);
                        if k >= t.len() {
                            acc
                        } else {
                            let inner = join_run(t, j + 1, k);
                            if t[k].0 == TokenType::RightParen {
                                if k + 1 < t.len() && t[k + 1].0 == TokenType::Literal {
                                    let m = lit_run_end(t, k + 1);
                                    if m >= t.len() {
                                        acc
                                    } else {
                                        let name = seq!['('] + inner + seq![')'] + join_run(
                                            t,
                                            k + 1,
                                            m,
                                        );
                                        let acc1 = acc.push((PartKind::TrackName, name));
                                        let next = if t[m].0 == TokenType::EOF {
                                            m
                                        } else {
                                            m + 1
                                        };
                                        parse_from(t, next, acc1)
                                    }
                                } else {
                                    let acc1 = acc.push(
                                        (PartKind::TrackName, seq!['('] + inner + seq![')']),
                                    );
                                    let next = if k + 1 >= t.len() || t[k + 1].0 == TokenType::EOF {
                                        k + 1
                                    } else {
                                        k + 2
                                    };
                                    parse_from(t, next, acc1)
                                }
                            } else {
                                let acc1 = acc.push((PartKind::TrackName, seq!['('] + inner));
                                let next = if t[k].0 == TokenType::EOF {
                                    k
                                } else {
                                    k + 1
                                };
                                parse_from(t, next, acc1)
                            }
                        }
                    } else {
                        parse_from(t, j + 1, acc.push((PartKind::TrackName, part)))
                    }
                },
                TokenType::Mix => parse_from(t, j + 1, acc.push((PartKind::Remix, part))),
                TokenType::LeftBracket => {
                    let acc1 = if acc.len() > 0 && acc.last().0 == PartKind::ArtistName {
                        acc.push((PartKind::TrackName, part))
                    } else {
                        acc
                    };
                    parse_from(t, j + 1, acc1)
                },
                TokenType::RightParen => parse_from(t, j + 1, acc),
                TokenType::RightBracket => parse_from(t, j + 1, acc.push((PartKind::Label, part))),
                TokenType::EOF => acc.push((PartKind::TrackName, part)),
                _ => parse_from(t, j + 1, acc.push((PartKind::TrackName, part))),
            }
        }
    }
}

#[via_fn]
proof fn parse_from_decreases(t: Seq<TokenView>, i: int, acc: Seq<PartView>) {
    if 0 <= i < t.len() {
        lemma_lit_run_end_bounds(t, i);
        let j = lit_run_end(t, i);
        if 0 <= j + 1 <= t.len() {
            lemma_lit_run_end_bounds(t, j + 1);
            let k = lit_run_end(t, j + 1);
            if 0 <= k + 1 <= t.len() {
                lemma_lit_run_end_bounds(t, k + 1);
            }
        }
    }
}

/// The executable parser.  It owns the full token buffer because the
/// remixer-context test scans it both backward and forward.
pub struct Parser {
    current: usize,
    tokens: Vec<Token>,
    pub track_parts: Vec<TrackPart>,
}

impl Parser {
    pub closed spec fn wf(&self) -> bool {
        &&& self.tokens@.len() > 0
        &&& self.tokens@.last().token_type == TokenType::EOF
        &&& wf_tokens(self.tokens@)
        &&& self.current < self.tokens@.len()
    }

    /// The ghost token stream this parser walks.
    pub closed spec fn toks(&self) -> Seq<TokenView> {
        tokens_view(self.tokens@)
    }

    /// The ghost fragments emitted so far.
    pub closed spec fn parts(&self) -> Seq<PartView> {
        parts_view(self.track_parts@)
    }

    pub closed spec fn cursor(&self) -> int {
        self.current as int
    }

    /// Lexes `input` and readies a parser over its tokens.
    pub fn new(input: String) -> (p: Self)
        ensures
            p.wf(),
            p.toks() == lex_spec(input@),
            p.cursor() == 0,
            p.parts() == Seq::<PartView>::empty(),
    {
        let scanner = Scanner::new(input);
        let tokens = scanner.scan();
        let p = Parser { current: 0, tokens, track_parts: Vec::new() };
        proof {
            assert(p.parts() =~= Seq::<PartView>::empty());
        }
        p
    }

    /// Runs the main dispatch loop to the EOF sentinel and returns the
    /// emitted fragments: exactly those of the [`parse_from`] model.
    #[verifier::rlimit(100)]
    pub fn parse(self) -> (r: Vec<TrackPart>)
        requires
            self.wf(),
        ensures
            parts_view(r@) == parse_from(self.toks(), self.cursor(), self.parts()),
    {
        let ghost t = self.toks();
        let ghost goal = parse_from(self.toks(), self.cursor(), self.parts());
        let mut this = self;
        while !this.is_at_end()
            invariant
                this.wf(),
                this.toks() == t,
                parse_from(t, this.cursor(), this.parts()) == goal,
            decreases
                    t.len() - this.cursor(),
                    (if t[this.cursor()].0 == TokenType::EOF {
                        0int
                    } else {
                        1int
                    }),
        {
            let ghost i0 = this.cursor();
            let ghost acc0 = this.parts();
            let part = this.consume_literals();
            let ghost j = this.cursor();
            let ghost pv = part@;
            proof {
                assert(t[i0].0 != TokenType::EOF);
                assert(j == lit_run_end(t, i0));
                assert(j < t.len());
                assert(pv == join_run(t, i0, j));
            }
            match this.peek_type() {
                TokenType::Dot | TokenType::Column => {
                    if is_track_side(part.as_str()) {
                        this.add_part(TrackPart::TrackSide(part));
                    }
                    this.advance();
                    proof {
                        let acc1 = if is_track_side_seq(pv) {
                            acc0.push((PartKind::TrackSide, pv))
                        } else {
                            acc0
                        };
                        assert(this.parts() == acc1);
                        assert(this.cursor() == j + 1);
                        assert(parse_from(t, i0, acc0) == parse_from(t, j + 1, acc1));
                    }
                },
                TokenType::Minus => {
                    if this.prev_is_mix() {
                        this.advance();
                        let track_name = this.consume_literals();
                        let ghost k2 = this.cursor();
                        let ghost nv = track_name@;
                        this.add_part(TrackPart::TrackName(track_name));
                        this.advance();
                        proof {
                            assert(k2 == lit_run_end(t, j + 1));
                            assert(k2 < t.len());
                            assert(nv == join_run(t, j + 1, k2));
                            let acc1 = acc0.push((PartKind::TrackName, nv));
                            assert(this.parts() == acc1);
                            let next = if t[k2].0 == TokenType::EOF {
                                k2
                            } else {
                                k2 + 1
                            };
                            assert(this.cursor() == next);
                            assert(parse_from(t, i0, acc0) == parse_from(t, next, acc1));
                        }
                    } else {
                        if !part.as_str().is_empty() {
                            this.add_part(TrackPart::ArtistName(part));
                        }
                        this.advance();
                        proof {
                            let acc1 = if pv.len() > 0 {
                                acc0.push((PartKind::ArtistName, pv))
                            } else {
                                acc0
                            };
                            assert(this.parts() == acc1);
                            assert(this.cursor() == j + 1);
                            assert(parse_from(t, i0, acc0) == parse_from(t, j + 1, acc1));
                        }
                    }
                },
                TokenType::And | TokenType::Feat => {
                    let ghost r1 = is_remixer_at(t, j);
                    if this.is_remixer() {
                        this.add_part(TrackPart::Remix(part));
                    } else {
                        this.add_part(TrackPart::ArtistName(part));
                    }
                    this.advance();
                    let second_artist_name = this.consume_literals();
                    let ghost k2 = this.cursor();
                    let ghost p2v = second_artist_name@;
                    if this.is_remixer() {
                        this.add_part(TrackPart::Remix(second_artist_name));
                        this.advance();
                    } else {
                        this.add_part(TrackPart::ArtistName(second_artist_name));
                    }
                    proof {
                        let first_kind = if r1 {
                            PartKind::Remix
                        } else {
                            PartKind::ArtistName
                        };
                        let acc1 = acc0.push((first_kind, pv));
                        assert(k2 == lit_run_end(t, j + 1));
                        assert(k2 < t.len());
                        assert(p2v == join_run(t, j + 1, k2));
                        if is_remixer_at(t, k2) {
                            let acc2 = acc1.push((PartKind::Remix, p2v));
                            let next = if t[k2].0 == TokenType::EOF {
                                k2
                            } else {
                                k2 + 1
                            };
                            assert(this.parts() == acc2);
                            assert(this.cursor() == next);
                            assert(parse_from(t, i0, acc0) == parse_from(t, next, acc2));
                        } else {
                            let acc2 = acc1.push((PartKind::ArtistName, p2v));
                            assert(this.parts() == acc2);
                            assert(this.cursor() == k2);
                            assert(parse_from(t, i0, acc0) == parse_from(t, k2, acc2));
                        }
                    }
                },
                TokenType::LeftParen => {
                    if part.as_str().is_empty() && this.track_parts.len() > 0 {
                        // the parenthesis opens the track name itself
                        this.advance();
                        let inside_paren = this.consume_literals();
                        let ghost k2 = this.cursor();
                        let ghost iv = inside_paren@;
                        proof {
                            reveal_strlit("(");
                            reveal_strlit(")");
                            assert("("@ =~= seq!['(']);
                            assert(")"@ =~= seq![')']);
                            assert(k2 == lit_run_end(t, j + 1));
                            assert(k2 < t.len());
                            assert(iv == join_run(t, j + 1, k2));
                            assert(acc0.len() > 0);
                            assert(pv.len() == 0);
                        }
                        let mut track_name = String::from_str("(");
                        track_name.append(inside_paren.as_str());
                        if this.peek_type() == TokenType::RightParen {
                            track_name.append(")");
                            this.advance();
                            // at most one literal run can follow the closing
                            // parenthesis: a run ends at the first token that
                            // is not a literal, which stops the collection
                            if this.peek_type() == TokenType::Literal {
                                let after_paren = this.consume_literals();
                                track_name.append(after_paren.as_str());
                                let ghost m = this.cursor();
                                let ghost nv = track_name@;
                                this.add_part(TrackPart::TrackName(track_name));
                                this.advance();
                                proof {
                                    assert(m == lit_run_end(t, k2 + 1));
                                    assert(m < t.len());
                                    assert(nv == seq!['('] + iv + seq![')'] + join_run(
                                        t,
                                        k2 + 1,
                                        m,
                                    ));
                                    let acc1 = acc0.push((PartKind::TrackName, nv));
                                    let next = if t[m].0 == TokenType::EOF {
                                        m
                                    } else {
                                        m + 1
                                    };
                                    assert(this.parts() == acc1);
                                    assert(this.cursor() == next);
                                    assert(parse_from(t, i0, acc0) == parse_from(t, next, acc1));
                                }
                            } else {
                                let ghost nv = track_name@;
                                this.add_part(TrackPart::TrackName(track_name));
                                this.advance();
                                proof {
                                    assert(nv == seq!['('] + iv + seq![')']);
                                    let acc1 = acc0.push((PartKind::TrackName, nv));
                                    let next = if k2 + 2 > t.len() || t[k2 + 1].0
                                        == TokenType::EOF {
                                        k2 + 1
                                    } else {
                                        k2 + 2
                                    };
                                    assert(this.parts() == acc1);
                                    assert(this.cursor() == next);
                                    assert(parse_from(t, i0, acc0) == parse_from(t, next, acc1));
                                }
                            }
                        } else {
                            let ghost nv = track_name@;
                            this.add_part(TrackPart::TrackName(track_name));
                            this.advance();
                            proof {
                                assert(nv == seq!['('] + iv);
                                let acc1 = acc0.push((PartKind::TrackName, nv));
                                let next = if t[k2].0 == TokenType::EOF {
                                    k2
                                } else {
                                    k2 + 1
                                };
                                assert(this.parts() == acc1);
                                assert(this.cursor() == next);
                                assert(parse_from(t, i0, acc0) == parse_from(t, next, acc1));
                            }
                        }
                    } else {
                        this.add_part(TrackPart::TrackName(part));
                        this.advance();
                        proof {
                            let acc1 = acc0.push((PartKind::TrackName, pv));
                            assert(this.parts() == acc1);
                            assert(this.cursor() == j + 1);
                            assert(parse_from(t, i0, acc0) == parse_from(t, j + 1, acc1));
                        }
                    }
                },
                TokenType::Mix => {
                    this.add_part(TrackPart::Remix(part));
                    this.advance();
                    proof {
                        let acc1 = acc0.push((PartKind::Remix, pv));
                        assert(this.parts() == acc1);
                        assert(this.cursor() == j + 1);
                        assert(parse_from(t, i0, acc0) == parse_from(t, j + 1, acc1));
                    }
                },
                TokenType::LeftBracket => {
                    if this.track_parts.len() > 0 {
                        proof {
                            assert(acc0.last() == part_view(this.track_parts@.last()));
                        }
                        let last_is_artist = matches!(
                            &this.track_parts[this.track_parts.len() - 1],
                            TrackPart::ArtistName(_)
                        );
                        if last_is_artist {
                            this.add_part(TrackPart::TrackName(part));
                        }
                    }
                    this.advance();
                    proof {
                        let acc1 = if acc0.len() > 0 && acc0.last().0 == PartKind::ArtistName {
                            acc0.push((PartKind::TrackName, pv))
                        } else {
                            acc0
                        };
                        assert(this.parts() == acc1);
                        assert(this.cursor() == j + 1);
                        assert(parse_from(t, i0, acc0) == parse_from(t, j + 1, acc1));
                    }
                },
                TokenType::RightParen => {
                    this.advance();
                    proof {
                        assert(this.parts() == acc0);
                        assert(this.cursor() == j + 1);
                        assert(parse_from(t, i0, acc0) == parse_from(t, j + 1, acc0));
                    }
                },
                TokenType::RightBracket => {
                    this.add_part(TrackPart::Label(part));
                    this.advance();
                    proof {
                        let acc1 = acc0.push((PartKind::Label, pv));
                        assert(this.parts() == acc1);
                        assert(this.cursor() == j + 1);
                        assert(parse_from(t, i0, acc0) == parse_from(t, j + 1, acc1));
                    }
                },
                _ => {
                    this.add_part(TrackPart::TrackName(part));
                    this.advance();
                    proof {
                        let acc1 = acc0.push((PartKind::TrackName, pv));
                        assert(this.parts() == acc1);
                        if t[j].0 == TokenType::EOF {
                            assert(this.cursor() == j);
                            assert(parse_from(t, i0, acc0) == acc1);
                            assert(parse_from(t, this.cursor(), this.parts()) == acc1);
                        } else {
                            assert(this.cursor() == j + 1);
                            assert(parse_from(t, i0, acc0) == parse_from(t, j + 1, acc1));
                        }
                    }
                },
            }
        }
        proof {
            assert(parse_from(t, this.cursor(), this.parts()) == this.parts());
        }
        this.track_parts
    }

    /// The kind of the token under the cursor.
    fn peek_type(&self) -> (k: TokenType)
        requires
            self.wf(),
        ensures
            k == self.toks()[self.cursor()].0,
    {
        self.tokens[self.current].token_type
    }

    fn is_at_end(&self) -> (r: bool)
        requires
            self.wf(),
        ensures
            r == (self.toks()[self.cursor()].0 == TokenType::EOF),
    {
        matches!(self.tokens[self.current].token_type, TokenType::EOF)
    }

    /// Whether the token just behind the cursor is a mix keyword.
    fn prev_is_mix(&self) -> (r: bool)
        requires
            self.wf(),
        ensures
            r == (self.cursor() > 0 && self.toks()[self.cursor() - 1].0 == TokenType::Mix),
    {
        if self.current == 0 {
            false
        } else {
            matches!(self.tokens[self.current - 1].token_type, TokenType::Mix)
        }
    }

    /// Moves the cursor past the current token, staying on the EOF sentinel.
    fn advance(&mut self)
        requires
            old(self).wf(),
        ensures
            final(self).wf(),
            final(self).tokens@ == old(self).tokens@,
            final(self).track_parts@ == old(self).track_parts@,
            final(self).cursor() == if old(self).toks()[old(self).cursor()].0 == TokenType::EOF {
                old(self).cursor()
            } else {
                old(self).cursor() + 1
            },
    {
        if self.is_at_end() {
            return ;
        }
        let n = self.tokens.len();
        proof {
            assert(self.toks()[self.cursor()].0 == self.tokens@[self.cursor()].token_type);
            // the EOF sentinel sits behind the cursor, so there is room to move
            assert(self.current < n - 1);
        }
        self.current = self.current + 1;
    }

    /// Consumes the maximal run of literal tokens at the cursor, joining
    /// their lexemes with single spaces.
    fn consume_literals(&mut self) -> (r: String)
        requires
            old(self).wf(),
        ensures
            final(self).wf(),
            final(self).tokens@ == old(self).tokens@,
            final(self).track_parts@ == old(self).track_parts@,
            final(self).cursor() == lit_run_end(old(self).toks(), old(self).cursor()),
            r@ == join_run(old(self).toks(), old(self).cursor(), final(self).cursor()),
            old(self).cursor() <= final(self).cursor(),
    {
        let ghost t = self.toks();
        let ghost c0 = self.cursor();
        let mut joined = String::new();
        let mut first: bool = true;
        loop
            invariant
                self.wf(),
                self.toks() == t,
                self.tokens@ == old(self).tokens@,
                self.track_parts@ == old(self).track_parts@,
                c0 <= self.cursor(),
                first <==> self.cursor() == c0,
                lit_run_end(t, c0) == lit_run_end(t, self.cursor()),
                joined@ == join_run(t, c0, self.cursor()),
            ensures
                self.cursor() == lit_run_end(t, c0),
                joined@ == join_run(t, c0, self.cursor()),
                self.tokens@ == old(self).tokens@,
                self.track_parts@ == old(self).track_parts@,
            decreases t.len() - self.cursor(),
        {
            if self.is_at_end() {
                break ;
            }
            if !matches!(self.tokens[self.current].token_type, TokenType::Literal) {
                break ;
            }
            proof {
                assert(wf_token(self.tokens@[self.cursor()]));
            }
            let lex: String = match &self.tokens[self.current].lexeme {
                Some(s) => s.clone(),
                None => String::new(),  // unreachable: a literal always carries its lexeme
            };
            proof {
                assert(lex@ == t[self.cursor()].1);
            }
            let ghost c_here = self.cursor();
            if first {
                joined = lex;
                first = false;
            } else {
                joined.append(" ");
                joined.append(lex.as_str());
            }
            self.advance();
            proof {
                reveal_strlit(" ");
                assert(" "@ =~= seq![' ']);
                assert(self.cursor() == c_here + 1);
                assert(joined@ == join_run(t, c0, self.cursor()));
            }
        }
        joined
    }

    /// The remixer-context test at the cursor: scan backward for a left
    /// parenthesis (stopped by a minus), then forward for a mix keyword
    /// (stopped by a right parenthesis).
    fn is_remixer(&self) -> (r: bool)
        requires
            self.wf(),
        ensures
            r == is_remixer_at(self.toks(), self.cursor()),
    {
        let ghost t = self.toks();
        let ghost c = self.cursor();
        let mut left_parens_found = false;
        let mut i: usize = self.current;
        loop
            invariant_except_break
                !left_parens_found,
                back_to_paren(t, c) == back_to_paren(t, i as int),
            invariant
                self.wf(),
                self.toks() == t,
                c == self.cursor(),
                i <= self.current,
            ensures
                left_parens_found == back_to_paren(t, c),
            decreases i,
        {
            proof {
                assert(t[i as int].0 == self.tokens@[i as int].token_type);
            }
            match self.tokens[i].token_type {
                TokenType::LeftParen => {
                    left_parens_found = true;
                    proof {
                        assert(back_to_paren(t, i as int));
                    }
                    break ;
                },
                TokenType::Minus => {
                    proof {
                        assert(!back_to_paren(t, i as int));
                    }
                    break ;
                },
                _ => {
                    if i == 0 {
                        proof {
                            assert(back_to_paren(t, 0) == back_to_paren(t, -1));
                            assert(!back_to_paren(t, -1));
                        }
                        break ;
                    }
                    i = i - 1;
                },
            }
        }
        let mut remix_token_found = false;
        let mut k: usize = self.current;
        while k < self.tokens.len()
            invariant_except_break
                !remix_token_found,
                fwd_to_mix(t, c) == fwd_to_mix(t, k as int),
            invariant
                self.wf(),
                self.toks() == t,
                c == self.cursor(),
                c <= k as int,
            ensures
                remix_token_found == fwd_to_mix(t, c),
            decreases self.tokens@.len() - k,
        {
            proof {
                assert(t[k as int].0 == self.tokens@[k as int].token_type);
            }
            match self.tokens[k].token_type {
                TokenType::Mix => {
                    remix_token_found = true;
                    proof {
                        assert(fwd_to_mix(t, k as int));
                    }
                    break ;
                },
                TokenType::RightParen => {
                    proof {
                        assert(!fwd_to_mix(t, k as int));
                    }
                    break ;
                },
                _ => {
                    k = k + 1;
                },
            }
        }
        left_parens_found && remix_token_found
    }

    fn add_part(&mut self, part_type: TrackPart)
        requires
            old(self).wf(),
        ensures
            final(self).wf(),
            final(self).tokens@ == old(self).tokens@,
            final(self).cursor() == old(self).cursor(),
            final(self).track_parts@ == old(self).track_parts@.push(part_type),
            final(self).parts() == old(self).parts().push(part_view(part_type)),
    {
        proof {
            lemma_parts_view_push(self.track_parts@, part_type);
        }
        self.track_parts.push(part_type);
    }
}

} // verus!
