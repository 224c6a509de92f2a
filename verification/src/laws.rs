//! Laws of the resolver, stated and proved once and for all.
//!
//! The matcher laws say what [`tracks_equal`] ignores — artist order, letter
//! case, catalog number and position — and what it is sensitive to: the name,
//! and the artist and remixer sets.  The parser law says what becomes of a
//! title without structural characters: its whole text is the track name.

use vstd::prelude::*;

use crate::lexer::{ascii_only, lex_spec, TokenType, TokenView};
use crate::parser::{join_run, lit_run_end, parse_from, PartKind};
use crate::track::{
    ci_contains, ci_eq, empty_track, fold_parts, parse_track_spec, tracks_equal, TrackView,
};

verus! {

/// Case-insensitive equality is symmetric.
pub proof fn lemma_ci_eq_symmetric(a: Seq<char>, b: Seq<char>)
    ensures
        ci_eq(a, b) == ci_eq(b, a),
{
}

/// Case-insensitive equality is transitive.
pub proof fn lemma_ci_eq_transitive(a: Seq<char>, b: Seq<char>, c: Seq<char>)
    requires
        ci_eq(a, b),
        ci_eq(b, c),
    ensures
        ci_eq(a, c),
{
}

/// Two lists of strings that agree pointwise up to letter case.
pub open spec fn ci_eq_seqs(xs: Seq<Seq<char>>, ys: Seq<Seq<char>>) -> bool {
    xs.len() == ys.len() && forall|i: int| 0 <= i < xs.len() ==> ci_eq(#[trigger] xs[i], ys[i])
}

/// A case-insensitive membership test cannot tell case-variants of the
/// needle apart.
proof fn lemma_ci_contains_respects(xs: Seq<Seq<char>>, x: Seq<char>, y: Seq<char>)
    requires
        ci_eq(x, y),
    ensures
        ci_contains(xs, x) == ci_contains(xs, y),
{
    if ci_contains(xs, x) {
        let i = choose|i: int| 0 <= i < xs.len() && ci_eq(#[trigger] xs[i], x);
        lemma_ci_eq_transitive(xs[i], x, y);
        assert(ci_eq(xs[i], y));
    }
    if ci_contains(xs, y) {
        let i = choose|i: int| 0 <= i < xs.len() && ci_eq(#[trigger] xs[i], y);
        lemma_ci_eq_symmetric(x, y);
        lemma_ci_eq_transitive(xs[i], y, x);
        assert(ci_eq(xs[i], x));
    }
}

/// A case-insensitive membership test cannot tell case-variants of the
/// list apart.
proof fn lemma_ci_contains_congruent(xs: Seq<Seq<char>>, ys: Seq<Seq<char>>, x: Seq<char>)
    requires
        ci_eq_seqs(xs, ys),
    ensures
        ci_contains(xs, x) == ci_contains(ys, x),
{
    if ci_contains(xs, x) {
        let i = choose|i: int| 0 <= i < xs.len() && ci_eq(#[trigger] xs[i], x);
        lemma_ci_eq_symmetric(xs[i], ys[i]);
        lemma_ci_eq_transitive(ys[i], xs[i], x);
        assert(ci_eq(ys[i], x));
    }
    if ci_contains(ys, x) {
        let i = choose|i: int| 0 <= i < ys.len() && ci_eq(#[trigger] ys[i], x);
        lemma_ci_eq_transitive(xs[i], ys[i], x);
        assert(ci_eq(xs[i], x));
    }
}

/// A case-insensitive membership test cannot tell reorderings of the
/// list apart.
proof fn lemma_ci_contains_permuted(xs: Seq<Seq<char>>, ys: Seq<Seq<char>>, x: Seq<char>)
    requires
        xs.to_multiset() == ys.to_multiset(),
    ensures
        ci_contains(xs, x) == ci_contains(ys, x),
{
    broadcast use vstd::seq_lib::group_to_multiset_ensures;

    if ci_contains(xs, x) {
        let i = choose|i: int| 0 <= i < xs.len() && ci_eq(#[trigger] xs[i], x);
        assert(xs.contains(xs[i]));
        assert(ys.to_multiset().count(xs[i]) > 0);
        assert(ys.contains(xs[i]));
        let j = choose|j: int| 0 <= j < ys.len() && ys[j] == xs[i];
        assert(ci_eq(ys[j], x));
    }
    if ci_contains(ys, x) {
        let i = choose|i: int| 0 <= i < ys.len() && ci_eq(#[trigger] ys[i], x);
        assert(ys.contains(ys[i]));
        assert(xs.to_multiset().count(ys[i]) > 0);
        assert(xs.contains(ys[i]));
        let j = choose|j: int| 0 <= j < xs.len() && xs[j] == ys[i];
        assert(ci_eq(xs[j], x));
    }
}

/// Matching ignores the catalog number and the position: changing only those
/// fields of a record changes no verdict, on either side.
pub proof fn lemma_equals_ignores_catno_position(a: TrackView, a2: TrackView, b: TrackView)
    requires
        a2.name == a.name,
        a2.artists == a.artists,
        a2.remix == a.remix,
    ensures
        tracks_equal(a2, b) == tracks_equal(a, b),
        tracks_equal(b, a2) == tracks_equal(b, a),
{
}

/// Matching ignores letter case: replacing a record's name, artists and
/// remixers by case-variants changes no verdict, on either side.
pub proof fn lemma_equals_case_insensitive(a: TrackView, a2: TrackView, b: TrackView)
    requires
        ci_eq(a2.name, a.name),
        ci_eq_seqs(a2.artists, a.artists),
        ci_eq_seqs(a2.remix, a.remix),
    ensures
        tracks_equal(a2, b) == tracks_equal(a, b),
        tracks_equal(b, a2) == tracks_equal(b, a),
{
    assert(ci_eq(a2.name, b.name) == ci_eq(a.name, b.name)) by {
        if ci_eq(a2.name, b.name) {
            lemma_ci_eq_symmetric(a2.name, a.name);
            lemma_ci_eq_transitive(a.name, a2.name, b.name);
        }
        if ci_eq(a.name, b.name) {
            lemma_ci_eq_transitive(a2.name, a.name, b.name);
        }
    }
    assert(ci_eq(b.name, a2.name) == ci_eq(b.name, a.name)) by {
        if ci_eq(b.name, a2.name) {
            lemma_ci_eq_transitive(b.name, a2.name, a.name);
        }
        if ci_eq(b.name, a.name) {
            lemma_ci_eq_symmetric(a2.name, a.name);
            lemma_ci_eq_transitive(b.name, a.name, a2.name);
        }
    }
    if tracks_equal(a, b) {
        assert forall|i: int| 0 <= i < a2.artists.len() implies ci_contains(
            b.artists,
            #[trigger] a2.artists[i],
        ) by {
            assert(ci_contains(b.artists, a.artists[i]));
            lemma_ci_contains_respects(b.artists, a2.artists[i], a.artists[i]);
        }
        assert forall|i: int| 0 <= i < a2.remix.len() implies ci_contains(
            b.remix,
            #[trigger] a2.remix[i],
        ) by {
            assert(ci_contains(b.remix, a.remix[i]));
            lemma_ci_contains_respects(b.remix, a2.remix[i], a.remix[i]);
        }
        assert(tracks_equal(a2, b));
    }
    if tracks_equal(a2, b) {
        assert forall|i: int| 0 <= i < a.artists.len() implies ci_contains(
            b.artists,
            #[trigger] a.artists[i],
        ) by {
            assert(ci_contains(b.artists, a2.artists[i]));
            lemma_ci_contains_respects(b.artists, a2.artists[i], a.artists[i]);
        }
        assert forall|i: int| 0 <= i < a.remix.len() implies ci_contains(
            b.remix,
            #[trigger] a.remix[i],
        ) by {
            assert(ci_contains(b.remix, a2.remix[i]));
            lemma_ci_contains_respects(b.remix, a2.remix[i], a.remix[i]);
        }
        assert(tracks_equal(a, b));
    }
    if tracks_equal(b, a) {
        assert forall|i: int| 0 <= i < b.artists.len() implies ci_contains(
            a2.artists,
            #[trigger] b.artists[i],
        ) by {
            assert(ci_contains(a.artists, b.artists[i]));
            lemma_ci_contains_congruent(a2.artists, a.artists, b.artists[i]);
        }
        assert forall|i: int| 0 <= i < b.remix.len() implies ci_contains(
            a2.remix,
            #[trigger] b.remix[i],
        ) by {
            assert(ci_contains(a.remix, b.remix[i]));
            lemma_ci_contains_congruent(a2.remix, a.remix, b.remix[i]);
        }
        assert(tracks_equal(b, a2));
    }
    if tracks_equal(b, a2) {
        assert forall|i: int| 0 <= i < b.artists.len() implies ci_contains(
            a.artists,
            #[trigger] b.artists[i],
        ) by {
            assert(ci_contains(a2.artists, b.artists[i]));
            lemma_ci_contains_congruent(a2.artists, a.artists, b.artists[i]);
        }
        assert forall|i: int| 0 <= i < b.remix.len() implies ci_contains(
            a.remix,
            #[trigger] b.remix[i],
        ) by {
            assert(ci_contains(a2.remix, b.remix[i]));
            lemma_ci_contains_congruent(a2.remix, a.remix, b.remix[i]);
        }
        assert(tracks_equal(b, a));
    }
}

/// Matching ignores the order of artists and remixers: reordering either
/// list of a record changes no verdict, on either side.
pub proof fn lemma_equals_order_insensitive(a: TrackView, a2: TrackView, b: TrackView)
    requires
        a2.name == a.name,
        a2.artists.to_multiset() == a.artists.to_multiset(),
        a2.remix.to_multiset() == a.remix.to_multiset(),
    ensures
        tracks_equal(a2, b) == tracks_equal(a, b),
        tracks_equal(b, a2) == tracks_equal(b, a),
{
    broadcast use vstd::seq_lib::group_to_multiset_ensures;

    vstd::seq_lib::to_multiset_len(a2.artists);
    vstd::seq_lib::to_multiset_len(a.artists);
    vstd::seq_lib::to_multiset_len(a2.remix);
    vstd::seq_lib::to_multiset_len(a.remix);
    assert(a2.artists.len() == a.artists.len());
    assert(a2.remix.len() == a.remix.len());
    if tracks_equal(a, b) {
        assert forall|i: int| 0 <= i < a2.artists.len() implies ci_contains(
            b.artists,
            #[trigger] a2.artists[i],
        ) by {
            assert(a2.artists.contains(a2.artists[i]));
            assert(a.artists.to_multiset().count(a2.artists[i]) > 0);
            assert(a.artists.contains(a2.artists[i]));
            let j = choose|j: int| 0 <= j < a.artists.len() && a.artists[j] == a2.artists[i];
            assert(ci_contains(b.artists, a.artists[j]));
        }
        assert forall|i: int| 0 <= i < a2.remix.len() implies ci_contains(
            b.remix,
            #[trigger] a2.remix[i],
        ) by {
            assert(a2.remix.contains(a2.remix[i]));
            assert(a.remix.to_multiset().count(a2.remix[i]) > 0);
            assert(a.remix.contains(a2.remix[i]));
            let j = choose|j: int| 0 <= j < a.remix.len() && a.remix[j] == a2.remix[i];
            assert(ci_contains(b.remix, a.remix[j]));
        }
        assert(tracks_equal(a2, b));
    }
    if tracks_equal(a2, b) {
        assert forall|i: int| 0 <= i < a.artists.len() implies ci_contains(
            b.artists,
            #[trigger] a.artists[i],
        ) by {
            assert(a.artists.contains(a.artists[i]));
            assert(a2.artists.to_multiset().count(a.artists[i]) > 0);
            assert(a2.artists.contains(a.artists[i]));
            let j = choose|j: int| 0 <= j < a2.artists.len() && a2.artists[j] == a.artists[i];
            assert(ci_contains(b.artists, a2.artists[j]));
        }
        assert forall|i: int| 0 <= i < a.remix.len() implies ci_contains(
            b.remix,
            #[trigger] a.remix[i],
        ) by {
            assert(a.remix.contains(a.remix[i]));
            assert(a2.remix.to_multiset().count(a.remix[i]) > 0);
            assert(a2.remix.contains(a.remix[i]));
            let j = choose|j: int| 0 <= j < a2.remix.len() && a2.remix[j] == a.remix[i];
            assert(ci_contains(b.remix, a2.remix[j]));
        }
        assert(tracks_equal(a, b));
    }
    if tracks_equal(b, a) {
        assert forall|i: int| 0 <= i < b.artists.len() implies ci_contains(
            a2.artists,
            #[trigger] b.artists[i],
        ) by {
            assert(ci_contains(a.artists, b.artists[i]));
            lemma_ci_contains_permuted(a2.artists, a.artists, b.artists[i]);
        }
        assert forall|i: int| 0 <= i < b.remix.len() implies ci_contains(
            a2.remix,
            #[trigger] b.remix[i],
        ) by {
            assert(ci_contains(a.remix, b.remix[i]));
            lemma_ci_contains_permuted(a2.remix, a.remix, b.remix[i]);
        }
        assert(tracks_equal(b, a2));
    }
    if tracks_equal(b, a2) {
        assert forall|i: int| 0 <= i < b.artists.len() implies ci_contains(
            a.artists,
            #[trigger] b.artists[i],
        ) by {
            assert(ci_contains(a2.artists, b.artists[i]));
            lemma_ci_contains_permuted(a2.artists, a.artists, b.artists[i]);
        }
        assert forall|i: int| 0 <= i < b.remix.len() implies ci_contains(
            a.remix,
            #[trigger] b.remix[i],
        ) by {
            assert(ci_contains(a2.remix, b.remix[i]));
            lemma_ci_contains_permuted(a2.remix, a.remix, b.remix[i]);
        }
        assert(tracks_equal(b, a));
    }
}

/// Matching is sensitive to the track name: records whose names differ under
/// case folding never match.
pub proof fn lemma_equals_name_sensitive(a: TrackView, b: TrackView)
    requires
        !ci_eq(a.name, b.name),
    ensures
        !tracks_equal(a, b),
{
}

/// Matching is sensitive to the artist set: an artist of one record without a
/// case-insensitive counterpart in the other defeats the match, as does a
/// difference in the number of artists.
pub proof fn lemma_equals_artist_sensitive(a: TrackView, b: TrackView, i: int)
    requires
        a.artists.len() != b.artists.len() || (0 <= i < a.artists.len() && !ci_contains(
            b.artists,
            a.artists[i],
        )),
    ensures
        !tracks_equal(a, b),
{
}

/// Matching is sensitive to the remixer set: a remixer of one record without
/// a case-insensitive counterpart in the other defeats the match, as does a
/// difference in the number of remixers.
pub proof fn lemma_equals_remix_sensitive(a: TrackView, b: TrackView, i: int)
    requires
        a.remix.len() != b.remix.len() || (0 <= i < a.remix.len() && !ci_contains(
            b.remix,
            a.remix[i],
        )),
    ensures
        !tracks_equal(a, b),
{
}

/// On a stretch of literal tokens closed by a non-literal at `m`, the literal
/// run from `i` ends exactly at `m`.
proof fn lemma_lit_run_all(t: Seq<TokenView>, i: int, m: int)
    requires
        0 <= i <= m < t.len(),
        forall|k: int| i <= k < m ==> (#[trigger] t[k]).0 == TokenType::Literal,
        t[m].0 != TokenType::Literal,
    ensures
        lit_run_end(t, i) == m,
    decreases m - i,
{
    if i < m {
        lemma_lit_run_all(t, i + 1, m);
    }
}

/// A title without structural characters resolves to a record whose name is
/// the whole space-joined literal text and whose artists, remixers, catalog
/// number and position are empty.
pub proof fn lemma_unstructured_title(s: Seq<char>)
    requires
        forall|k: int|
            0 <= k < lex_spec(ascii_only(s)).len() - 1 ==> (#[trigger] lex_spec(ascii_only(s))[k]).0
                == TokenType::Literal,
    ensures
        parse_track_spec(s) == (TrackView {
            name: join_run(lex_spec(ascii_only(s)), 0, lex_spec(ascii_only(s)).len() - 1),
            artists: Seq::empty(),
            remix: Seq::empty(),
            catno: Seq::empty(),
            position: Seq::empty(),
        }),
{
    let toks = lex_spec(ascii_only(s));
    let last = toks.len() - 1;
    assert(toks.len() >= 1);
    assert(toks[last].0 == TokenType::EOF);
    let frags = parse_from(toks, 0, Seq::empty());
    if toks.len() == 1 {
        assert(frags =~= Seq::<(PartKind, Seq<char>)>::empty());
        assert(join_run(toks, 0, 0) =~= Seq::<char>::empty());
        assert(fold_parts(frags) == empty_track());
        assert(parse_track_spec(s) =~~= (TrackView {
            name: join_run(toks, 0, last),
            artists: Seq::empty(),
            remix: Seq::empty(),
            catno: Seq::empty(),
            position: Seq::empty(),
        }));
    } else {
        assert(toks[0].0 == TokenType::Literal);
        lemma_lit_run_all(toks, 0, last);
        let part = join_run(toks, 0, last);
        assert(frags =~= Seq::<(PartKind, Seq<char>)>::empty().push((PartKind::TrackName, part)));
        assert(frags.len() == 1);
        assert(frags[0] == (PartKind::TrackName, part));
        assert(crate::track::fold_parts_prefix(frags, 0) == empty_track());
        assert(crate::track::fold_parts_prefix(frags, 1) == crate::track::fold_part(
            empty_track(),
            (PartKind::TrackName, part),
        ));
        assert(fold_parts(frags) =~~= (TrackView {
            name: part,
            artists: Seq::empty(),
            remix: Seq::empty(),
            catno: Seq::empty(),
            position: Seq::empty(),
        }));
    }
}

} // verus!
