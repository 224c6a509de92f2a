//! Shared pieces of the stream crawlers: who a stream came from, the stream
//! record itself, and the substring extraction their scrapers lean on.
//! Fetching and walking the remote pages is I/O and lives with the caller.

use vstd::prelude::*;

verus! {

/// Which crawler found a stream.
#[derive(Debug, Clone, Copy, PartialEq, Eq, Structural)]
pub enum CrawlerId {
    Beatport,
    Bandcamp,
}

/// The short tag a crawler is shown as.
pub open spec fn crawler_tag(c: CrawlerId) -> Seq<char> {
    match c {
        CrawlerId::Beatport => "BT"@,
        CrawlerId::Bandcamp => "BC"@,
    }
}

impl CrawlerId {
    pub fn tag(&self) -> (r: &'static str)
        ensures
            r@ == crawler_tag(*self),
    {
        match self {
            CrawlerId::Beatport => "BT",
            CrawlerId::Bandcamp => "BC",
        }
    }
}

/// One playable stream a crawler found.
#[derive(Debug, Clone)]
pub struct Stream {
    pub page_url: String,
    pub audio_url: String,
    pub craler_id: CrawlerId,
}

/// The Bandcamp crawler.
#[derive(Debug, Clone)]
pub struct Bandcamp;

/// The Beatport crawler.
#[derive(Debug, Clone)]
pub struct Beatport;

/// `s` with every ampersand and comma deleted.
pub open spec fn remove_amp_comma(s: Seq<char>) -> Seq<char>
    decreases s.len(),
{
    if s.len() == 0 {
        Seq::empty()
    } else {
        let pre = remove_amp_comma(s.drop_last());
        if s.last() == '&' || s.last() == ',' {
            pre
        } else {
            pre.push(s.last())
        }
    }
}

/// `s` with every run of two or more white-space characters replaced by one
/// space; a lone white-space character stays as it is.
pub open spec fn collapse_ws(s: Seq<char>, i: int) -> Seq<char>
    decreases s.len() - i,
    via collapse_ws_decreases
{
    if i < 0 || i >= s.len() {
        Seq::empty()
    } else if crate::util::is_white(s[i]) && i + 1 < s.len() && crate::util::is_white(s[i + 1]) {
        seq![' '] + collapse_ws(s, crate::util::skip_white(s, i))
    } else {
        seq![s[i]] + collapse_ws(s, i + 1)
    }
}

#[via_fn]
proof fn collapse_ws_decreases(s: Seq<char>, i: int) {
    if 0 <= i < s.len() && crate::util::is_white(s[i]) {
        crate::util::lemma_skip_white_bounds(s, i + 1);
    }
}

/// An artist name as a crawler's query wants it: ampersands and commas
/// removed, runs of white space collapsed to one space, and the whole
/// trimmed.
pub open spec fn stripped_artist_name(s: Seq<char>) -> Seq<char> {
    crate::util::trim_spec(collapse_ws(remove_amp_comma(s), 0))
}

/// Prepares an artist name for a crawler's search query.
pub fn strip_artist_name_chars(input: &str) -> (r: String)
    ensures
        r@ == stripped_artist_name(input@),
{
    let n: usize = input.unicode_len();
    let mut cleaned = String::new();
    let mut i: usize = 0;
    proof {
        assert(cleaned@ =~= remove_amp_comma(input@.take(0)));
    }
    while i < n
        invariant
            n == input@.len(),
            i <= n,
            cleaned@ == remove_amp_comma(input@.take(i as int)),
        decreases n - i,
    {
        let c = input.get_char(i);
        if c != '&' && c != ',' {
            let piece = input.substring_char(i, i + 1);
            proof {
                assert(piece@ =~= seq![input@[i as int]]);
            }
            cleaned.append(piece);
        }
        proof {
            assert(input@.take(i + 1).drop_last() =~= input@.take(i as int));
            assert(input@.take(i + 1).last() == input@[i as int]);
            assert(cleaned@ =~= remove_amp_comma(input@.take(i + 1)));
        }
        i = i + 1;
    }
    proof {
        assert(input@.take(n as int) =~= input@);
    }
    let m: usize = cleaned.as_str().unicode_len();
    let mut out = String::new();
    let mut j: usize = 0;
    proof {
        assert(out@ + collapse_ws(cleaned@, 0) =~= collapse_ws(cleaned@, 0));
    }
    while j < m
        invariant
            m == cleaned@.len(),
            j <= m,
            collapse_ws(cleaned@, 0) == out@ + collapse_ws(cleaned@, j as int),
        decreases m - j,
    {
        let cj = cleaned.as_str().get_char(j);
        let two_white = crate::util::is_white_char(cj) && j + 1 < m && crate::util::is_white_char(
            cleaned.as_str().get_char(j + 1),
        );
        if two_white {
            out.append(" ");
            let next = crate::util::skip_white_from(cleaned.as_str(), j);
            proof {
                reveal_strlit(" ");
                assert(" "@ =~= seq![' ']);
                crate::util::lemma_skip_white_bounds(cleaned@, j + 1);
                assert(collapse_ws(cleaned@, j as int) =~= seq![' '] + collapse_ws(
                    cleaned@,
                    next as int,
                ));
                assert(collapse_ws(cleaned@, 0) =~= out@ + collapse_ws(cleaned@, next as int));
            }
            j = next;
        } else {
            let piece = cleaned.as_str().substring_char(j, j + 1);
            proof {
                assert(piece@ =~= seq![cleaned@[j as int]]);
            }
            out.append(piece);
            proof {
                assert(collapse_ws(cleaned@, j as int) =~= seq![cleaned@[j as int]]
                    + collapse_ws(cleaned@, j + 1));
                assert(collapse_ws(cleaned@, 0) =~= out@ + collapse_ws(cleaned@, j + 1));
            }
            j = j + 1;
        }
    }
    proof {
        assert(collapse_ws(cleaned@, m as int) =~= Seq::<char>::empty());
        assert(out@ =~= collapse_ws(cleaned@, 0));
    }
    crate::util::trim_ws(out.as_str())
}

/// Whether `pat` occurs in `s` starting at `i`.
pub open spec fn is_match_at(s: Seq<char>, pat: Seq<char>, i: int) -> bool {
    0 <= i && i + pat.len() <= s.len() && s.subrange(i, i + pat.len()) == pat
}

/// The first position at or after `i` where `pat` occurs in `s`, or `-1`
/// when it never does.
pub open spec fn first_match(s: Seq<char>, pat: Seq<char>, i: int) -> int
    decreases s.len() - i + 1,
{
    if i < 0 || i + pat.len() > s.len() {
        -1
    } else if s.subrange(i, i + pat.len()) == pat {
        i
    } else {
        first_match(s, pat, i + 1)
    }
}

/// Where `first_match` finds `pat`, `pat` indeed occurs there, at or after
/// the starting position.
pub proof fn lemma_first_match_found(s: Seq<char>, pat: Seq<char>, i: int)
    requires
        first_match(s, pat, i) >= 0,
    ensures
        i <= first_match(s, pat, i),
        is_match_at(s, pat, first_match(s, pat, i)),
    decreases s.len() - i + 1,
{
    if !(i < 0 || i + pat.len() > s.len()) && s.subrange(i, i + pat.len()) != pat {
        lemma_first_match_found(s, pat, i + 1);
    }
}

/// Compares `pat` against `s` at position `i`.
fn matches_at(s: &str, pat: &str, i: usize) -> (r: bool)
    requires
        i + pat@.len() <= s@.len(),
    ensures
        r == (s@.subrange(i as int, i + pat@.len()) == pat@),
{
    let sn: usize = s.unicode_len();
    let pn: usize = pat.unicode_len();
    let mut k: usize = 0;
    while k < pn
        invariant
            sn == s@.len(),
            pn == pat@.len(),
            i + pn <= sn,
            k <= pn,
            forall|m: int| 0 <= m < k ==> s@[i + m] == pat@[m],
        decreases pn - k,
    {
        if s.get_char(i + k) != pat.get_char(k) {
            proof {
                assert(s@.subrange(i as int, i + pat@.len())[k as int] != pat@[k as int]);
            }
            return false;
        }
        k = k + 1;
    }
    proof {
        assert(s@.subrange(i as int, i + pat@.len()) =~= pat@);
    }
    true
}

/// The first occurrence of `pat` in `s` at or after `from`, as a character
/// position.
fn find_first(s: &str, pat: &str, from: usize) -> (r: Option<usize>)
    requires
        pat@.len() > 0,
    ensures
        r is Some <==> first_match(s@, pat@, from as int) >= 0,
        (match r {
            Option::Some(i) => i == first_match(s@, pat@, from as int),
            Option::None => true,
        }),
{
    let sn: usize = s.unicode_len();
    let pn: usize = pat.unicode_len();
    if pn > sn {
        return None;
    }
    let last = sn - pn;
    let mut i: usize = from;
    if i > last {
        return None;
    }
    while i <= last
        invariant
            sn == s@.len(),
            pn == pat@.len(),
            1 <= pn <= sn,
            last == sn - pn,
            from <= i,
            i <= last + 1,
            first_match(s@, pat@, from as int) == first_match(s@, pat@, i as int),
        decreases last + 1 - i,
    {
        if matches_at(s, pat, i) {
            return Some(i);
        }
        i = i + 1;
    }
    None
}

/// The text between the first occurrence of `left` and whatever ends its
/// segment: the next occurrence of `left` or the end of the text, and within
/// that segment the first occurrence of `right`, if any.
pub open spec fn between_spec(s: Seq<char>, l: Seq<char>, r: Seq<char>) -> Seq<char> {
    let i = first_match(s, l, 0);
    let after = s.subrange(i + l.len(), s.len() as int);
    let j = first_match(after, l, 0);
    let seg = if j >= 0 {
        after.take(j)
    } else {
        after
    };
    let k = first_match(seg, r, 0);
    if k >= 0 {
        seg.take(k)
    } else {
        seg
    }
}

/// Extracts the text standing between `left` and `right`, as the crawlers'
/// scrapers cut values out of a fetched page.  `left` must occur in the
/// input; the result runs to the end of `left`'s segment when `right` never
/// follows.
pub fn get_string_between(input: &str, left: &str, right: &str) -> (r: String)
    requires
        left@.len() > 0,
        right@.len() > 0,
        first_match(input@, left@, 0) >= 0,
    ensures
        r@ == between_spec(input@, left@, right@),
{
    let i = match find_first(input, left, 0) {
        Some(i) => i,
        None => 0,  // unreachable: the occurrence is required
    };
    proof {
        lemma_first_match_found(input@, left@, 0);
    }
    let sn: usize = input.unicode_len();
    let ln: usize = left.unicode_len();
    let after: &str = input.substring_char(i + ln, sn);
    let seg: &str = match find_first(after, left, 0) {
        Some(j) => {
            proof {
                lemma_first_match_found(after@, left@, 0);
            }
            after.substring_char(0, j)
        },
        None => after,
    };
    let out: &str = match find_first(seg, right, 0) {
        Some(k) => {
            proof {
                lemma_first_match_found(seg@, right@, 0);
            }
            seg.substring_char(0, k)
        },
        None => seg,
    };
    proof {
        assert(out@ =~= between_spec(input@, left@, right@));
    }
    out.to_owned()
}

} // verus!
