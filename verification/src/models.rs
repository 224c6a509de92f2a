//! Data model of the release catalog: releases, tracks, artists, labels,
//! search results, and the parameters of a catalog search.

use vstd::prelude::*;

use crate::track::{join_sep, join_strings};
use crate::util::dec_digits;

verus! {

#[derive(Debug, Clone)]
pub struct Artist {
    pub anv: String,
    pub id: i32,
    pub join: String,
    pub name: String,
    pub resource_url: String,
    pub role: String,
    pub tracks: String,
}

#[derive(Debug, Clone)]
pub struct Contributor {
    pub resource_url: String,
    pub username: String,
}

#[derive(Debug, Clone)]
pub struct Company {
    pub catno: String,
    pub entity_type: String,
    pub entity_type_name: String,
    pub id: i32,
    pub name: String,
    pub resource_url: String,
}

#[derive(Debug, Clone)]
pub struct Format {
    pub descriptions: Option<Vec<String>>,
    pub name: String,
    pub qty: String,
    pub text: Option<String>,
}

#[derive(Debug, Clone)]
pub struct Identifier {
    pub kind: String,
    pub value: String,
}

#[derive(Debug, Clone)]
pub struct Image {
    pub height: i32,
    pub resource_url: String,
    pub kind: String,
    pub uri: String,
    pub uri150: String,
    pub width: i32,
}

#[derive(Debug, Clone)]
pub struct Label {
    pub catno: String,
    pub entity_type: String,
    pub id: i32,
    pub name: String,
    pub resource_url: String,
}

/// One entry of a release's tracklist.
#[derive(Debug, Clone)]
pub struct Track {
    pub duration: String,
    pub position: String,
    pub title: String,
    pub type_: String,
    pub artists: Option<Vec<Artist>>,
    pub extraartists: Option<Vec<Artist>>,
}

/// The names of a list of artists.
pub open spec fn artist_names(vs: Seq<Artist>) -> Seq<Seq<char>> {
    vs.map_values(|a: Artist| a.name@)
}

impl Track {
    /// The track's own artists joined with commas, or the release artist
    /// where the track credits none.
    pub fn artist_or_release_artist(&self, release_artist: &str) -> (r: String)
        ensures
            r@ == (match self.artists {
                Option::Some(v) => join_sep(artist_names(v@), ", "@),
                Option::None => release_artist@,
            }),
    {
        match &self.artists {
            Some(artists) => {
                let mut names: Vec<String> = Vec::new();
                let n = artists.len();
                let mut i: usize = 0;
                proof {
                    assert(names.deep_view() =~= artist_names(artists@.take(0)));
                }
                while i < n
                    invariant
                        n == artists@.len(),
                        i <= n,
                        names.deep_view() == artist_names(artists@.take(i as int)),
                    decreases n - i,
                {
                    let ghost before = names.deep_view();
                    names.push(artists[i].name.clone());
                    proof {
                        assert(names.deep_view() =~= before.push(artists@[i as int].name@));
                        assert(artists@.take(i + 1).drop_last() =~= artists@.take(i as int));
                        assert(names.deep_view() =~= artist_names(artists@.take(i + 1)));
                    }
                    i = i + 1;
                }
                proof {
                    assert(artists@.take(n as int) =~= artists@);
                }
                join_strings(&names, ", ")
            },
            None => release_artist.to_owned(),
        }
    }
}

/// An ASCII decimal digit.
pub open spec fn is_digit(c: char) -> bool {
    48 <= c as u32 && (c as u32) <= 57
}

/// The first position at or after `i` holding a non-digit.
pub open spec fn digits_end(s: Seq<char>, i: int) -> int
    decreases s.len() - i,
{
    if i < 0 || i >= s.len() {
        i
    } else if is_digit(s[i]) {
        digits_end(s, i + 1)
    } else {
        i
    }
}

/// Where a parenthesized number starting at `i` ends (exclusive), or `-1`
/// when none starts there: an opening parenthesis, one or more digits, and a
/// closing parenthesis.
pub open spec fn paren_num_end(s: Seq<char>, i: int) -> int {
    if 0 <= i < s.len() && s[i] == '(' {
        let d = digits_end(s, i + 1);
        if d > i + 1 && d < s.len() && s[d] == ')' {
            d + 1
        } else {
            -1
        }
    } else {
        -1
    }
}

/// The start of the first parenthesized number at or after `i`, or `-1`.
pub open spec fn find_paren_num(s: Seq<char>, i: int) -> int
    decreases s.len() - i,
{
    if i < 0 || i >= s.len() {
        -1
    } else if paren_num_end(s, i) > i {
        i
    } else {
        find_paren_num(s, i + 1)
    }
}

/// A catalog artist name with its disambiguation number removed: the first
/// parenthesized number, if any, is cut out, and the result trimmed.
pub open spec fn clean_name(s: Seq<char>) -> Seq<char> {
    let m = find_paren_num(s, 0);
    if m < 0 {
        crate::util::trim_spec(s)
    } else {
        crate::util::trim_spec(s.take(m) + s.skip(paren_num_end(s, m)))
    }
}

proof fn lemma_digits_end_bounds(s: Seq<char>, i: int)
    requires
        0 <= i <= s.len(),
    ensures
        i <= digits_end(s, i) <= s.len(),
    decreases s.len() - i,
{
    if i < s.len() && is_digit(s[i]) {
        lemma_digits_end_bounds(s, i + 1);
    }
}

proof fn lemma_find_paren_num_found(s: Seq<char>, i: int)
    requires
        0 <= i,
        find_paren_num(s, i) >= 0,
    ensures
        i <= find_paren_num(s, i) < s.len(),
        paren_num_end(s, find_paren_num(s, i)) > find_paren_num(s, i),
        paren_num_end(s, find_paren_num(s, i)) <= s.len(),
    decreases s.len() - i,
{
    if i < s.len() && !(paren_num_end(s, i) > i) {
        lemma_find_paren_num_found(s, i + 1);
    } else if i < s.len() {
        lemma_digits_end_bounds(s, i + 1);
    }
}

fn is_digit_char(c: char) -> (r: bool)
    ensures
        r == is_digit(c),
{
    let u = c as u32;
    48 <= u && u <= 57
}

/// Whether a parenthesized number starts at `i`.
fn paren_num_at(s: &str, n: usize, i: usize) -> (r: Option<usize>)
    requires
        n == s@.len(),
        i < n,
    ensures
        (match r {
            Option::Some(e) => paren_num_end(s@, i as int) == e as int,
            Option::None => paren_num_end(s@, i as int) == -1,
        }),
{
    if s.get_char(i) != '(' {
        return None;
    }
    let mut d: usize = i + 1;
    while d < n && is_digit_char(s.get_char(d))
        invariant
            n == s@.len(),
            i + 1 <= d <= n,
            digits_end(s@, i + 1) == digits_end(s@, d as int),
        decreases n - d,
    {
        d = d + 1;
    }
    proof {
        assert(digits_end(s@, d as int) == d as int);
    }
    if d > i + 1 && d < n && s.get_char(d) == ')' {
        Some(d + 1)
    } else {
        None
    }
}

/// Cuts the first parenthesized number, if any, out of `name` and trims the
/// result.
fn clean_artist_name(name: &str) -> (r: String)
    ensures
        r@ == clean_name(name@),
{
    let n: usize = name.unicode_len();
    let mut i: usize = 0;
    while i < n
        invariant
            n == name@.len(),
            i <= n,
            find_paren_num(name@, 0) == find_paren_num(name@, i as int),
        decreases n - i,
    {
        match paren_num_at(name, n, i) {
            Some(e) => {
                proof {
                    lemma_find_paren_num_found(name@, i as int);
                    lemma_digits_end_bounds(name@, i + 1);
                }
                let head = name.substring_char(0, i);
                let tail = name.substring_char(e, n);
                let mut joined = head.to_owned();
                joined.append(tail);
                proof {
                    assert(joined@ =~= name@.take(i as int) + name@.skip(e as int));
                }
                return crate::util::trim_ws(joined.as_str());
            },
            None => {},
        }
        i = i + 1;
    }
    proof {
        assert(find_paren_num(name@, 0) == -1);
    }
    crate::util::trim_ws(name)
}

/// Case-insensitive occurrence of `pat` in `s` at `i`, under ASCII folding.
pub open spec fn ci_match_at(s: Seq<char>, pat: Seq<char>, i: int) -> bool {
    0 <= i && i + pat.len() <= s.len() && forall|k: int|
        0 <= k < pat.len() ==> #[trigger] crate::track::lower_code(s[i + k]) == crate::track::lower_code(pat[k])
}

/// Whether `pat` occurs anywhere in `s`, compared case-insensitively.
pub open spec fn ci_contains_sub(s: Seq<char>, pat: Seq<char>) -> bool {
    exists|i: int| ci_match_at(s, pat, i)
}

/// Searches `s` for a case-insensitive occurrence of `pat`.
fn contains_ci(s: &str, pat: &str) -> (r: bool)
    requires
        pat@.len() > 0,
    ensures
        r == ci_contains_sub(s@, pat@),
{
    let sn: usize = s.unicode_len();
    let pn: usize = pat.unicode_len();
    if pn > sn {
        proof {
            assert forall|i: int| !ci_match_at(s@, pat@, i) by {}
        }
        return false;
    }
    let last = sn - pn;
    let mut i: usize = 0;
    while i <= last
        invariant
            sn == s@.len(),
            pn == pat@.len(),
            1 <= pn <= sn,
            last == sn - pn,
            i <= last + 1,
            forall|m: int| 0 <= m < i ==> !ci_match_at(s@, pat@, m),
        decreases last + 1 - i,
    {
        let mut k: usize = 0;
        let mut hit = true;
        while k < pn && hit
            invariant
                sn == s@.len(),
                pn == pat@.len(),
                i + pn <= sn,
                k <= pn,
                hit ==> forall|m: int|
                    0 <= m < k ==> #[trigger] crate::track::lower_code(s@[i + m])
                        == crate::track::lower_code(pat@[m]),
                !hit ==> !ci_match_at(s@, pat@, i as int),
            decreases pn - k, (if hit { 1int } else { 0int }),
        {
            let cs = s.get_char(i + k) as u32;
            let cp = pat.get_char(k) as u32;
            let ls = if 65 <= cs && cs <= 90 {
                cs + 32
            } else {
                cs
            };
            let lp = if 65 <= cp && cp <= 90 {
                cp + 32
            } else {
                cp
            };
            if ls != lp {
                proof {
                    assert(crate::track::lower_code(s@[i + k]) != crate::track::lower_code(
                        pat@[k as int],
                    ));
                }
                hit = false;
            } else {
                k = k + 1;
            }
        }
        if hit {
            proof {
                assert(ci_match_at(s@, pat@, i as int));
            }
            return true;
        }
        i = i + 1;
    }
    proof {
        assert forall|m: int| !ci_match_at(s@, pat@, m) by {
            if 0 <= m <= last {
                assert(!ci_match_at(s@, pat@, m));
            }
        }
    }
    false
}

/// The cleaned names of the remix-credited extra artists of a list, in
/// order.
pub open spec fn remixer_names(vs: Seq<Artist>) -> Seq<Seq<char>>
    decreases vs.len(),
{
    if vs.len() == 0 {
        Seq::empty()
    } else {
        remixer_names(vs.drop_last()) + (if ci_contains_sub(vs.last().role@, "remix"@) {
            seq![clean_name(vs.last().name@)]
        } else {
            Seq::empty()
        })
    }
}

/// The cleaned names of a list of artists, in order.
pub open spec fn clean_names(vs: Seq<Artist>) -> Seq<Seq<char>> {
    vs.map_values(|a: Artist| clean_name(a.name@))
}

impl Track {
    /// The track's own artists with their disambiguation numbers removed,
    /// where the track credits any.
    pub fn artists_clean(&self) -> (r: Option<Vec<String>>)
        ensures
            (match r {
                Option::Some(names) => self.artists is Some && names.deep_view() == clean_names(
                    self.artists.unwrap()@,
                ),
                Option::None => self.artists is None,
            }),
    {
        match &self.artists {
            Some(artists) => {
                let mut names: Vec<String> = Vec::new();
                let n = artists.len();
                let mut i: usize = 0;
                proof {
                    assert(names.deep_view() =~= clean_names(artists@.take(0)));
                }
                while i < n
                    invariant
                        n == artists@.len(),
                        i <= n,
                        names.deep_view() == clean_names(artists@.take(i as int)),
                    decreases n - i,
                {
                    let ghost before = names.deep_view();
                    let cleaned = clean_artist_name(artists[i].name.as_str());
                    names.push(cleaned);
                    proof {
                        assert(names.deep_view() =~= before.push(
                            clean_name(artists@[i as int].name@),
                        ));
                        assert(artists@.take(i + 1).drop_last() =~= artists@.take(i as int));
                        assert(names.deep_view() =~= clean_names(artists@.take(i + 1)));
                    }
                    i = i + 1;
                }
                proof {
                    assert(artists@.take(n as int) =~= artists@);
                }
                Some(names)
            },
            None => None,
        }
    }

    /// The cleaned names of the extra artists whose role names a remix,
    /// where the track credits any extra artists.
    pub fn remixers_clean(&self) -> (r: Option<Vec<String>>)
        ensures
            (match r {
                Option::Some(names) => self.extraartists is Some && names.deep_view()
                    == remixer_names(self.extraartists.unwrap()@),
                Option::None => self.extraartists is None,
            }),
    {
        match &self.extraartists {
            Some(artists) => {
                let mut names: Vec<String> = Vec::new();
                let n = artists.len();
                let mut i: usize = 0;
                proof {
                    assert(names.deep_view() =~= remixer_names(artists@.take(0)));
                }
                while i < n
                    invariant
                        n == artists@.len(),
                        i <= n,
                        names.deep_view() == remixer_names(artists@.take(i as int)),
                    decreases n - i,
                {
                    proof {
                        reveal_strlit("remix");
                    }
                    if contains_ci(artists[i].role.as_str(), "remix") {
                        let cleaned = clean_artist_name(artists[i].name.as_str());
                        names.push(cleaned);
                    }
                    proof {
                        assert(artists@.take(i + 1).drop_last() =~= artists@.take(i as int));
                        assert(artists@.take(i + 1).last() == artists@[i as int]);
                        assert(names.deep_view() =~= remixer_names(artists@.take(i + 1)));
                    }
                    i = i + 1;
                }
                proof {
                    assert(artists@.take(n as int) =~= artists@);
                }
                Some(names)
            },
            None => None,
        }
    }
}

#[derive(Debug, Clone)]
pub struct Video {
    pub description: Option<String>,
    pub duration: i32,
    pub embed: bool,
    pub title: String,
    pub uri: String,
}

#[derive(Debug, Clone)]
pub struct ArtistRelease {
    pub artist: String,
    pub id: i32,
    pub main_release: Option<i32>,
    pub resource_url: String,
    pub role: Option<String>,
    pub thumb: Option<String>,
    pub title: String,
    pub kind: Option<String>,
    pub year: Option<i32>,
}

#[derive(Debug, Clone)]
pub struct LabelRelease {
    pub artist: String,
    pub catno: String,
    pub format: String,
    pub id: i32,
    pub resource_url: String,
    pub status: String,
    pub thumb: Option<String>,
    pub title: String,
    pub year: i32,
}

#[derive(Debug, Clone)]
pub struct UserIdentity {
    pub id: i32,
    pub username: String,
    pub resource_url: String,
    pub consumer_name: String,
}

#[derive(Debug, Clone)]
pub struct WantBasicInformation {
    pub formats: Vec<Format>,
    pub thumb: Option<String>,
    pub cover_image: Option<String>,
    pub title: String,
    pub labels: Vec<Label>,
    pub year: i32,
    pub artists: Vec<Artist>,
    pub resource_url: String,
    pub id: i32,
}

#[derive(Debug, Clone)]
pub struct Want {
    pub rating: i32,
    pub basic_information: WantBasicInformation,
    pub resource_url: String,
    pub id: i32,
}

#[derive(Debug, Clone)]
pub struct SellerRelease {
    pub catalog_number: Option<String>,
    pub resource_url: String,
    pub year: i32,
    pub id: i32,
    pub descriptiont: Option<String>,
    pub artist: String,
    pub title: String,
    pub format: Option<String>,
    pub thumbnail: Option<String>,
}

#[derive(Debug, Clone)]
pub struct SearchResultCommunity {
    pub want: i32,
    pub have: i32,
}

#[derive(Debug, Clone)]
pub struct SearchResult {
    pub style: Vec<String>,
    pub thumb: Option<String>,
    pub title: String,
    pub country: Option<String>,
    pub format: Vec<String>,
    pub uri: String,
    pub community: SearchResultCommunity,
    pub label: Vec<String>,
    pub catno: String,
    pub year: Option<String>,
    pub genre: Vec<String>,
    pub resource_url: String,
    pub kind: String,
    pub id: i32,
}

/// What kind of catalog entity a search asks for.
#[derive(Debug, Clone, Copy, PartialEq, Eq, Structural)]
pub enum SearchType {
    Release,
    Master,
    Artist,
    Label,
}

/// The wire value of a search type.
pub open spec fn search_type_label(k: SearchType) -> Seq<char> {
    match k {
        SearchType::Release => "release"@,
        SearchType::Master => "master"@,
        SearchType::Artist => "artist"@,
        SearchType::Label => "label"@,
    }
}

impl SearchType {
    pub fn as_str(&self) -> (r: &'static str)
        ensures
            r@ == search_type_label(*self),
    {
        match self {
            SearchType::Release => "release",
            SearchType::Master => "master",
            SearchType::Artist => "artist",
            SearchType::Label => "label",
        }
    }
}

/// The parameters of a catalog search; every field is optional.
pub struct SearchParams {
    pub query: Option<String>,
    pub search_type: Option<SearchType>,
    pub genre: Option<String>,
    pub style: Option<String>,
    pub track: Option<String>,
    pub country: Option<String>,
    pub year: Option<u16>,
    pub catno: Option<String>,
    pub barcode: Option<String>,
    pub label: Option<String>,
    pub artist: Option<String>,
    pub page_size: Option<u8>,
}

impl Default for SearchParams {
    fn default() -> (r: Self)
        ensures
            r.query is None,
            r.search_type is None,
            r.genre is None,
            r.style is None,
            r.track is None,
            r.country is None,
            r.year is None,
            r.catno is None,
            r.barcode is None,
            r.label is None,
            r.artist is None,
            r.page_size is None,
    {
        SearchParams {
            query: None,
            search_type: None,
            genre: None,
            style: None,
            track: None,
            country: None,
            year: None,
            catno: None,
            barcode: None,
            label: None,
            artist: None,
            page_size: None,
        }
    }
}

/// Ghost image of a list of query parameters.
pub open spec fn pairs_view(v: Seq<(String, String)>) -> Seq<(Seq<char>, Seq<char>)> {
    v.map_values(|p: (String, String)| (p.0@, p.1@))
}

/// The key-value pairs a search sends, in a fixed order, one pair for each
/// field that is set.
pub open spec fn query_params_spec(p: SearchParams) -> Seq<(Seq<char>, Seq<char>)> {
    let s = Seq::<(Seq<char>, Seq<char>)>::empty();
    let s = match p.query {
        Option::Some(v) => s.push(("q"@, v@)),
        Option::None => s,
    };
    let s = match p.search_type {
        Option::Some(v) => s.push(("type"@, search_type_label(v))),
        Option::None => s,
    };
    let s = match p.genre {
        Option::Some(v) => s.push(("genre"@, v@)),
        Option::None => s,
    };
    let s = match p.style {
        Option::Some(v) => s.push(("style"@, v@)),
        Option::None => s,
    };
    let s = match p.track {
        Option::Some(v) => s.push(("track"@, v@)),
        Option::None => s,
    };
    let s = match p.country {
        Option::Some(v) => s.push(("country"@, v@)),
        Option::None => s,
    };
    let s = match p.year {
        Option::Some(v) => s.push(("year"@, dec_digits(v as nat))),
        Option::None => s,
    };
    let s = match p.catno {
        Option::Some(v) => s.push(("catno"@, v@)),
        Option::None => s,
    };
    let s = match p.barcode {
        Option::Some(v) => s.push(("barcode"@, v@)),
        Option::None => s,
    };
    let s = match p.label {
        Option::Some(v) => s.push(("label"@, v@)),
        Option::None => s,
    };
    let s = match p.artist {
        Option::Some(v) => s.push(("artist"@, v@)),
        Option::None => s,
    };
    let s = match p.page_size {
        Option::Some(v) => s.push(("per_page"@, dec_digits(v as nat))),
        Option::None => s,
    };
    s
}

/// Appends one key-value pair.
fn push_param(params: &mut Vec<(String, String)>, key: &str, value: String)
    ensures
        pairs_view(final(params)@) == pairs_view(old(params)@).push((key@, value@)),
{
    let ghost before = params@;
    let k = String::from_str(key);
    params.push((k, value));
    proof {
        assert(pairs_view(params@) =~= pairs_view(before).push((key@, value@)));
    }
}

impl SearchParams {
    pub fn query(self, value: String) -> (r: Self)
        ensures
            r == (SearchParams { query: Some(value), ..self }),
    {
        let mut s = self;
        s.query = Some(value);
        s
    }

    pub fn search_type(self, value: SearchType) -> (r: Self)
        ensures
            r == (SearchParams { search_type: Some(value), ..self }),
    {
        let mut s = self;
        s.search_type = Some(value);
        s
    }

    pub fn genre(self, value: String) -> (r: Self)
        ensures
            r == (SearchParams { genre: Some(value), ..self }),
    {
        let mut s = self;
        s.genre = Some(value);
        s
    }

    pub fn style(self, value: String) -> (r: Self)
        ensures
            r == (SearchParams { style: Some(value), ..self }),
    {
        let mut s = self;
        s.style = Some(value);
        s
    }

    pub fn track(self, value: String) -> (r: Self)
        ensures
            r == (SearchParams { track: Some(value), ..self }),
    {
        let mut s = self;
        s.track = Some(value);
        s
    }

    pub fn country(self, value: String) -> (r: Self)
        ensures
            r == (SearchParams { country: Some(value), ..self }),
    {
        let mut s = self;
        s.country = Some(value);
        s
    }

    pub fn year(self, value: u16) -> (r: Self)
        ensures
            r == (SearchParams { year: Some(value), ..self }),
    {
        let mut s = self;
        s.year = Some(value);
        s
    }

    pub fn catno(self, value: String) -> (r: Self)
        ensures
            r == (SearchParams { catno: Some(value), ..self }),
    {
        let mut s = self;
        s.catno = Some(value);
        s
    }

    pub fn barcode(self, value: String) -> (r: Self)
        ensures
            r == (SearchParams { barcode: Some(value), ..self }),
    {
        let mut s = self;
        s.barcode = Some(value);
        s
    }

    pub fn label(self, value: String) -> (r: Self)
        ensures
            r == (SearchParams { label: Some(value), ..self }),
    {
        let mut s = self;
        s.label = Some(value);
        s
    }

    pub fn artist(self, value: String) -> (r: Self)
        ensures
            r == (SearchParams { artist: Some(value), ..self }),
    {
        let mut s = self;
        s.artist = Some(value);
        s
    }

    pub fn page_size(self, value: u8) -> (r: Self)
        ensures
            r == (SearchParams { page_size: Some(value), ..self }),
    {
        let mut s = self;
        s.page_size = Some(value);
        s
    }

    /// The key-value pairs this search sends, one for each field that is
    /// set, in a fixed order.
    pub fn to_query_params(&self) -> (r: Vec<(String, String)>)
        ensures
            pairs_view(r@) == query_params_spec(*self),
    {
        let mut params: Vec<(String, String)> = Vec::new();
        proof {
            assert(pairs_view(params@) =~= Seq::<(Seq<char>, Seq<char>)>::empty());
        }
        if let Some(query) = &self.query {
            push_param(&mut params, "q", query.clone());
        }
        if let Some(kind) = &self.search_type {
            push_param(&mut params, "type", String::from_str(kind.as_str()));
        }
        if let Some(genre) = &self.genre {
            push_param(&mut params, "genre", genre.clone());
        }
        if let Some(style) = &self.style {
            push_param(&mut params, "style", style.clone());
        }
        if let Some(track) = &self.track {
            push_param(&mut params, "track", track.clone());
        }
        if let Some(country) = &self.country {
            push_param(&mut params, "country", country.clone());
        }
        if let Some(year) = &self.year {
            push_param(&mut params, "year", crate::util::dec_string(*year as u128));
        }
        if let Some(catno) = &self.catno {
            push_param(&mut params, "catno", catno.clone());
        }
        if let Some(barcode) = &self.barcode {
            push_param(&mut params, "barcode", barcode.clone());
        }
        if let Some(label) = &self.label {
            push_param(&mut params, "label", label.clone());
        }
        if let Some(artist) = &self.artist {
            push_param(&mut params, "artist", artist.clone());
        }
        if let Some(page_size) = &self.page_size {
            push_param(&mut params, "per_page", crate::util::dec_string(*page_size as u128));
        }
        params
    }
}

} // verus!
