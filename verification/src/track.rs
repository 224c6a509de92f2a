//! The canonical track record and the cross-source equality predicate.
//!
//! [`parse_track`] folds the fragments of a title into one [`Track`]: artists
//! and remixers are deduplicated sets in insertion order, the later of two
//! track names, sides or labels wins, and a remix annotation naming only the
//! original mix is discarded.  Equality between two records is length-gated,
//! case-insensitive bag containment over artists and remixers, with the name
//! compared under ASCII case folding; catalog number and position are
//! excluded.

use vstd::prelude::*;

use crate::lexer::{ascii_only, lex_spec, strip_non_ascii};
use crate::parser::{parse_from, parts_view, PartKind, Parser, PartView, TrackPart};

verus! {

/// The ASCII-folded code point of a character: letters compare equal
/// regardless of case.
pub open spec fn lower_code(c: char) -> int {
    if 65 <= c as u32 && (c as u32) <= 90 {
        (c as u32) as int + 32
    } else {
        (c as u32) as int
    }
}

/// Case-insensitive equality of two character sequences (ASCII folding).
pub open spec fn ci_eq(a: Seq<char>, b: Seq<char>) -> bool {
    a.len() == b.len() && forall|i: int|
        0 <= i < a.len() ==> #[trigger] lower_code(a[i]) == lower_code(b[i])
}

/// Whether some element of `xs` equals `x` case-insensitively.
pub open spec fn ci_contains(xs: Seq<Seq<char>>, x: Seq<char>) -> bool {
    exists|i: int| 0 <= i < xs.len() && ci_eq(#[trigger] xs[i], x)
}

/// Ghost image of a canonical record.
#[verifier::ext_equal]
pub struct TrackView {
    pub name: Seq<char>,
    pub artists: Seq<Seq<char>>,
    pub remix: Seq<Seq<char>>,
    pub catno: Seq<char>,
    pub position: Seq<char>,
}

/// The canonical record resolved from one title string.  `artists` and
/// `remix` hold distinct values in insertion order; all fields default to
/// empty when no fragment supplied them.
#[derive(Clone, Debug)]
pub struct Track {
    pub name: String,
    pub artists: Vec<String>,
    pub catno: String,
    pub remix: Vec<String>,
    pub position: String,
}

impl View for Track {
    type V = TrackView;

    open spec fn view(&self) -> TrackView {
        TrackView {
            name: self.name@,
            artists: self.artists.deep_view(),
            remix: self.remix.deep_view(),
            catno: self.catno@,
            position: self.position@,
        }
    }
}

/// The record with every field empty.
pub open spec fn empty_track() -> TrackView {
    TrackView {
        name: Seq::empty(),
        artists: Seq::empty(),
        remix: Seq::empty(),
        catno: Seq::empty(),
        position: Seq::empty(),
    }
}

/// Set-insertion at the end of a sequence: a value already present is not
/// added again.
pub open spec fn insert_unique(xs: Seq<Seq<char>>, x: Seq<char>) -> Seq<Seq<char>> {
    if xs.contains(x) {
        xs
    } else {
        xs.push(x)
    }
}

/// A remix annotation that names no remixer: its ASCII-lowercased text is
/// exactly `original`.
pub open spec fn is_original_tag(s: Seq<char>) -> bool {
    ci_eq(s, "original"@)
}

/// How one fragment updates the record being folded.
pub open spec fn fold_part(t: TrackView, p: PartView) -> TrackView {
    match p.0 {
        PartKind::ArtistName => TrackView { artists: insert_unique(t.artists, p.1), ..t },
        PartKind::Remix => if is_original_tag(p.1) {
            t
        } else {
            TrackView { remix: insert_unique(t.remix, p.1), ..t }
        },
        PartKind::TrackName => TrackView { name: p.1, ..t },
        PartKind::TrackSide => TrackView { position: p.1, ..t },
        PartKind::Label => TrackView { catno: p.1, ..t },
    }
}

/// The record after folding the first `n` fragments.
pub open spec fn fold_parts_prefix(ps: Seq<PartView>, n: int) -> TrackView
    decreases n,
{
    if n <= 0 {
        empty_track()
    } else {
        fold_part(fold_parts_prefix(ps, n - 1), ps[n - 1])
    }
}

/// The record a fragment sequence folds into.
pub open spec fn fold_parts(ps: Seq<PartView>) -> TrackView {
    fold_parts_prefix(ps, ps.len() as int)
}

/// The canonical record of a raw title: strip non-ASCII characters, lex,
/// parse, fold.
pub open spec fn parse_track_spec(s: Seq<char>) -> TrackView {
    fold_parts(parse_from(lex_spec(ascii_only(s)), 0, Seq::empty()))
}

/// Case-insensitive comparison of two strings under ASCII folding.
pub fn eq_ignore_case(a: &str, b: &str) -> (r: bool)
    ensures
        r == ci_eq(a@, b@),
{
    let an: usize = a.unicode_len();
    let bn: usize = b.unicode_len();
    if an != bn {
        return false;
    }
    let mut i: usize = 0;
    while i < an
        invariant
            an == a@.len(),
            bn == b@.len(),
            an == bn,
            i <= an,
            forall|k: int| 0 <= k < i ==> #[trigger] lower_code(a@[k]) == lower_code(b@[k]),
        decreases an - i,
    {
        let ca = a.get_char(i) as u32;
        let cb = b.get_char(i) as u32;
        let la = if 65 <= ca && ca <= 90 {
            ca + 32
        } else {
            ca
        };
        let lb = if 65 <= cb && cb <= 90 {
            cb + 32
        } else {
            cb
        };
        if la != lb {
            proof {
                assert(lower_code(a@[i as int]) != lower_code(b@[i as int]));
            }
            return false;
        }
        i = i + 1;
    }
    true
}

/// Whether `xs` holds a string equal to `x` (exact comparison).
fn contains_string(xs: &Vec<String>, x: &String) -> (r: bool)
    ensures
        r == xs.deep_view().contains(x@),
{
    let n = xs.len();
    let mut i: usize = 0;
    while i < n
        invariant
            n == xs@.len(),
            i <= n,
            forall|k: int| 0 <= k < i ==> #[trigger] xs.deep_view()[k] != x@,
        decreases n - i,
    {
        if crate::lexer::str_eq(xs[i].as_str(), x.as_str()) {
            proof {
                assert(xs.deep_view()[i as int] == x@);
            }
            return true;
        }
        i = i + 1;
    }
    proof {
        if xs.deep_view().contains(x@) {
            let k = choose|k: int| 0 <= k < xs.deep_view().len() && xs.deep_view()[k] == x@;
            assert(xs.deep_view()[k] != x@);
        }
    }
    false
}

/// Whether `xs` holds a case-insensitive match of `x`.
fn ci_member(xs: &Vec<String>, x: &String) -> (r: bool)
    ensures
        r == ci_contains(xs.deep_view(), x@),
{
    let n = xs.len();
    let mut i: usize = 0;
    while i < n
        invariant
            n == xs@.len(),
            i <= n,
            forall|k: int| 0 <= k < i ==> !ci_eq(#[trigger] xs.deep_view()[k], x@),
        decreases n - i,
    {
        if eq_ignore_case(xs[i].as_str(), x.as_str()) {
            proof {
                assert(ci_eq(xs.deep_view()[i as int], x@));
            }
            return true;
        }
        i = i + 1;
    }
    proof {
        if ci_contains(xs.deep_view(), x@) {
            let k = choose|k: int|
                0 <= k < xs.deep_view().len() && ci_eq(xs.deep_view()[k], x@);
            assert(!ci_eq(xs.deep_view()[k], x@));
        }
    }
    false
}

/// Appends `x` unless an equal string is already present.
fn vec_insert_unique(xs: &mut Vec<String>, x: &String)
    ensures
        final(xs).deep_view() == insert_unique(old(xs).deep_view(), x@),
{
    if !contains_string(xs, x) {
        let ghost before = xs.deep_view();
        xs.push(x.clone());
        proof {
            assert(xs.deep_view() =~= before.push(x@));
        }
    }
}

/// The length-gated, case-insensitive containment equality of two records:
/// equally many artists and remixers, names equal under ASCII folding, and
/// every artist and remixer of one record case-insensitively present in the
/// other.  Catalog number and position play no part.
pub open spec fn tracks_equal(a: TrackView, b: TrackView) -> bool {
    &&& a.artists.len() == b.artists.len()
    &&& a.remix.len() == b.remix.len()
    &&& ci_eq(a.name, b.name)
    &&& forall|i: int| 0 <= i < a.artists.len() ==> ci_contains(b.artists, #[trigger] a.artists[i])
    &&& forall|i: int| 0 <= i < a.remix.len() ==> ci_contains(b.remix, #[trigger] a.remix[i])
}

impl PartialEq for Track {
    /// The cross-source matching predicate.
    fn eq(&self, other: &Self) -> (r: bool) {
        if self.artists.len() != other.artists.len() {
            return false;
        }
        if self.remix.len() != other.remix.len() {
            return false;
        }
        if !eq_ignore_case(self.name.as_str(), other.name.as_str()) {
            return false;
        }
        let an = self.artists.len();
        let mut i: usize = 0;
        while i < an
            invariant
                an == self.artists@.len(),
                i <= an,
                forall|k: int|
                    0 <= k < i ==> ci_contains(
                        other.artists.deep_view(),
                        #[trigger] self.artists.deep_view()[k],
                    ),
            decreases an - i,
        {
            if !ci_member(&other.artists, &self.artists[i]) {
                proof {
                    assert(!ci_contains(other@.artists, self@.artists[i as int]));
                }
                return false;
            }
            i = i + 1;
        }
        let rn = self.remix.len();
        let mut k: usize = 0;
        while k < rn
            invariant
                rn == self.remix@.len(),
                k <= rn,
                forall|m: int|
                    0 <= m < k ==> ci_contains(
                        other.remix.deep_view(),
                        #[trigger] self.remix.deep_view()[m],
                    ),
            decreases rn - k,
        {
            if !ci_member(&other.remix, &self.remix[k]) {
                proof {
                    assert(!ci_contains(other@.remix, self@.remix[k as int]));
                }
                return false;
            }
            k = k + 1;
        }
        true
    }
}

impl vstd::std_specs::cmp::PartialEqSpecImpl for Track {
    open spec fn obeys_eq_spec() -> bool {
        true
    }

    open spec fn eq_spec(&self, other: &Track) -> bool {
        tracks_equal(self@, other@)
    }
}

/// Resolves a raw title string into its canonical record.  Never fails: a
/// title without recognizable structure degrades to empty fields.
pub fn parse_track(input: &str) -> (r: Track)
    ensures
        r@ == parse_track_spec(input@),
{
    let stripped = strip_non_ascii(input);
    let parser = Parser::new(stripped);
    let track_parts = parser.parse();
    let ghost ps = parts_view(track_parts@);
    let mut name = String::new();
    let mut artists: Vec<String> = Vec::new();
    let mut remix: Vec<String> = Vec::new();
    let mut position = String::new();
    let mut catno = String::new();
    let n = track_parts.len();
    let mut idx: usize = 0;
    proof {
        assert(artists.deep_view() =~= Seq::<Seq<char>>::empty());
        assert(remix.deep_view() =~= Seq::<Seq<char>>::empty());
    }
    while idx < n
        invariant
            n == track_parts@.len(),
            idx <= n,
            ps == parts_view(track_parts@),
            name@ == fold_parts_prefix(ps, idx as int).name,
            artists.deep_view() == fold_parts_prefix(ps, idx as int).artists,
            remix.deep_view() == fold_parts_prefix(ps, idx as int).remix,
            position@ == fold_parts_prefix(ps, idx as int).position,
            catno@ == fold_parts_prefix(ps, idx as int).catno,
        decreases n - idx,
    {
        proof {
            assert(ps[idx as int] == crate::parser::part_view(track_parts@[idx as int]));
        }
        match &track_parts[idx] {
            TrackPart::ArtistName(v) => {
                vec_insert_unique(&mut artists, v);
            },
            TrackPart::Remix(v) => {
                if !eq_ignore_case(v.as_str(), "original") {
                    vec_insert_unique(&mut remix, v);
                }
            },
            TrackPart::TrackName(v) => {
                name = v.clone();
            },
            TrackPart::TrackSide(v) => {
                position = v.clone();
            },
            TrackPart::Label(v) => {
                catno = v.clone();
            },
        }
        idx = idx + 1;
    }
    let r = Track { name, artists, remix, position, catno };
    proof {
        assert(ps.len() == n);
        assert(r@ =~= fold_parts(ps));
    }
    r
}

/// Helper shared by [`Track::artist_name`] and [`Track::remixer_name`]:
/// the elements of `xs` joined with `sep`.
pub open spec fn join_sep(parts: Seq<Seq<char>>, sep: Seq<char>) -> Seq<char>
    decreases parts.len(),
{
    if parts.len() == 0 {
        Seq::empty()
    } else if parts.len() == 1 {
        parts[0]
    } else {
        join_sep(parts.drop_last(), sep) + sep + parts.last()
    }
}

/// The separator actually used: the one supplied, or a single space.
pub open spec fn sep_or_space(separator: Option<&str>) -> Seq<char> {
    match separator {
        Option::Some(s) => s@,
        Option::None => " "@,
    }
}

pub(crate) fn join_strings(xs: &Vec<String>, sep: &str) -> (r: String)
    ensures
        r@ == join_sep(xs.deep_view(), sep@),
{
    let mut out = String::new();
    let n = xs.len();
    let mut i: usize = 0;
    proof {
        assert(xs.deep_view().take(0) =~= Seq::<Seq<char>>::empty());
    }
    while i < n
        invariant
            n == xs@.len(),
            i <= n,
            out@ == join_sep(xs.deep_view().take(i as int), sep@),
        decreases n - i,
    {
        if i > 0 {
            out.append(sep);
        }
        out.append(xs[i].as_str());
        proof {
            let dv = xs.deep_view();
            assert(dv.take(i + 1).drop_last() =~= dv.take(i as int));
            assert(dv.take(i + 1).last() == dv[i as int]);
            assert(out@ == join_sep(dv.take(i + 1), sep@));
        }
        i = i + 1;
    }
    proof {
        assert(xs.deep_view().take(n as int) =~= xs.deep_view());
    }
    out
}

impl Track {
    /// The artists joined with `separator` (a single space by default).
    pub fn artist_name(&self, separator: Option<&str>) -> (r: String)
        ensures
            r@ == join_sep(self@.artists, sep_or_space(separator)),
    {
        let sep: &str = match separator {
            Some(s) => s,
            None => " ",
        };
        join_strings(&self.artists, sep)
    }

    /// The remixers joined with `separator` (a single space by default).
    pub fn remixer_name(&self, separator: Option<&str>) -> (r: String)
        ensures
            r@ == join_sep(self@.remix, sep_or_space(separator)),
    {
        let sep: &str = match separator {
            Some(s) => s,
            None => " ",
        };
        join_strings(&self.remix, sep)
    }

    /// Resolves a raw title string into its canonical record.
    pub fn from_str(s: &str) -> (r: Self)
        ensures
            r@ == parse_track_spec(s@),
    {
        parse_track(s)
    }
}

} // verus!
