//! State of the catalog playlist: the tracks gathered per release and the
//! bookkeeping that maps a release to the rows it occupies.  Crawling the
//! streams themselves is I/O and lives with the caller, which hands the
//! results back through [`PlaylistState::update_streams`].

use std::collections::HashMap;

use vstd::prelude::*;

use crate::app_state::{AudioPlayable, PlayableId, PlayableKind};
use crate::crawler::Stream;

verus! {

broadcast use vstd::std_specs::hash::group_hash_axioms;

/// How far crawling the streams of a release has come.
#[derive(Debug, Clone, Copy)]
pub enum DiscogsTrackStatus {
    Loading,
    Complete,
    Failed,
}

/// One track of a catalog release shown in the playlist.
#[derive(Debug, Clone)]
pub struct DiscogsTrack {
    pub artist: String,
    pub title: String,
    pub catno: String,
    pub streams: Vec<Stream>,
    pub album: String,
    pub album_art: Option<Vec<u8>>,
    pub date_added: i64,
    pub status: DiscogsTrackStatus,
    pub web_path: String,
    pub genre: String,
}

impl AudioPlayable for DiscogsTrack {
    fn get_id(&self) -> PlayableId {
        // marks a playable that is not part of the library yet
        -1
    }

    fn get_title(&self) -> &str {
        self.title.as_str()
    }

    fn get_album(&self) -> &str {
        self.album.as_str()
    }

    fn get_artist(&self) -> &str {
        self.artist.as_str()
    }

    fn get_date_added(&self) -> &i64 {
        &self.date_added
    }

    fn get_genre(&self) -> &str {
        self.genre.as_str()
    }

    fn get_duration(&self) -> u64 {
        0
    }

    fn get_path(&self) -> &str {
        self.web_path.as_str()
    }

    fn get_album_art(&self) -> &Option<Vec<u8>> {
        &self.album_art
    }

    fn get_kind(&self) -> PlayableKind {
        PlayableKind::Stream
    }
}

/// The options flattened away: the streams that were actually found.
pub open spec fn flatten_options(s: Seq<Option<Stream>>) -> Seq<Stream>
    decreases s.len(),
{
    if s.len() == 0 {
        Seq::empty()
    } else {
        flatten_options(s.drop_last()) + (match s.last() {
            Option::Some(x) => seq![x],
            Option::None => Seq::empty(),
        })
    }
}

/// Names the streams field of a row, for stating updates field by field.
pub open spec fn row_streams(t: DiscogsTrack) -> Vec<Stream> {
    t.streams
}

/// Names the status field of a row, for stating updates field by field.
pub open spec fn row_status(t: DiscogsTrack) -> DiscogsTrackStatus {
    t.status
}

/// A valid index record over `n` rows: every index in range, no index twice.
pub open spec fn wf_entry(idxs: Seq<usize>, n: nat) -> bool {
    &&& forall|k: int| 0 <= k < idxs.len() ==> (#[trigger] idxs[k]) < n
    &&& forall|k1: int, k2: int| 0 <= k1 < k2 < idxs.len() ==> idxs[k1] != idxs[k2]
}

/// Flattens away the options, keeping the streams that were found, in order.
fn flatten_stream_options(options: Vec<Option<Stream>>) -> (r: Vec<Stream>)
    ensures
        r@ == flatten_options(options@),
{
    let ghost all = options@;
    let mut options = options;
    let mut out: Vec<Stream> = Vec::new();
    proof {
        assert(out@ =~= flatten_options(all.take(0)));
    }
    while options.len() > 0
        invariant
            options@.len() <= all.len(),
            options@ == all.skip(all.len() - options@.len()),
            out@ == flatten_options(all.take(all.len() - options@.len())),
        decreases options@.len(),
    {
        let ghost done = all.len() - options@.len();
        let next = options.remove(0);
        match next {
            Some(s) => out.push(s),
            None => {},
        }
        proof {
            assert(all.skip(done)[0] == all[done]);
            assert(options@ =~= all.skip(done + 1));
            assert(all.take(done + 1).drop_last() =~= all.take(done));
            assert(all.take(done + 1).last() == all[done]);
            assert(out@ =~= flatten_options(all.take(done + 1)));
        }
    }
    proof {
        assert(all.take(all.len() as int) =~= all);
    }
    out
}

/// Replaces the streams of the row at `idx`, leaving every other field and
/// every other row as it was.
fn set_row_streams(rows: &mut Vec<DiscogsTrack>, idx: usize, streams: Vec<Stream>)
    requires
        idx < old(rows)@.len(),
    ensures
        final(rows)@.len() == old(rows)@.len(),
        forall|q: int| 0 <= q < old(rows)@.len() && q != idx ==> final(rows)@[q] == old(rows)@[q],
        final(rows)@[idx as int] == (DiscogsTrack {
            streams: row_streams(final(rows)@[idx as int]),
            ..old(rows)@[idx as int]
        }),
        final(rows)@[idx as int].streams == streams,
{
    let ghost before = rows@;
    let mut row = rows.remove(idx);
    row.streams = streams;
    rows.insert(idx, row);
    proof {
        assert forall|q: int| 0 <= q < before.len() && q != idx implies rows@[q] == before[q] by {
            if q < idx {
                assert(before.remove(idx as int)[q] == before[q]);
            } else {
                assert(before.remove(idx as int)[q - 1] == before[q]);
            }
        }
    }
}

/// Replaces the status of the row at `idx`, leaving every other field and
/// every other row as it was.
fn set_row_status(rows: &mut Vec<DiscogsTrack>, idx: usize, status: DiscogsTrackStatus)
    requires
        idx < old(rows)@.len(),
    ensures
        final(rows)@.len() == old(rows)@.len(),
        forall|q: int| 0 <= q < old(rows)@.len() && q != idx ==> final(rows)@[q] == old(rows)@[q],
        final(rows)@[idx as int] == (DiscogsTrack { status, ..old(rows)@[idx as int] }),
{
    let ghost before = rows@;
    let mut row = rows.remove(idx);
    row.status = status;
    rows.insert(idx, row);
    proof {
        assert forall|q: int| 0 <= q < before.len() && q != idx implies rows@[q] == before[q] by {
            if q < idx {
                assert(before.remove(idx as int)[q] == before[q]);
            } else {
                assert(before.remove(idx as int)[q - 1] == before[q]);
            }
        }
    }
}

/// The playlist rows and, per release, the row indexes it occupies.
pub struct PlaylistState {
    playables: Vec<DiscogsTrack>,
    lookup_mapping: HashMap<i32, Vec<usize>>,
}

/// The playlist of crawled releases.
pub struct DiscogsPlaylist {
    pub state: PlaylistState,
}

impl Default for DiscogsPlaylist {
    fn default() -> (r: Self)
        ensures
            r.state.wf(),
            r.state.rows() == Seq::<DiscogsTrack>::empty(),
            r.state.index_map() == Map::<i32, Vec<usize>>::empty(),
    {
        DiscogsPlaylist { state: PlaylistState::default() }
    }
}

impl Default for PlaylistState {
    fn default() -> (r: Self)
        ensures
            r.wf(),
            r.rows() == Seq::<DiscogsTrack>::empty(),
            r.index_map() == Map::<i32, Vec<usize>>::empty(),
    {
        PlaylistState { playables: Vec::new(), lookup_mapping: HashMap::new() }
    }
}

impl PlaylistState {
    /// The rows of the playlist, in order.
    pub closed spec fn rows(&self) -> Seq<DiscogsTrack> {
        self.playables@
    }

    /// Which rows each release occupies.
    pub closed spec fn index_map(&self) -> Map<i32, Vec<usize>> {
        self.lookup_mapping@
    }

    /// Every recorded row index points at an existing row, and no row is
    /// recorded twice for one release.
    pub closed spec fn wf(&self) -> bool {
        forall|id: i32|
            self.index_map().contains_key(id) ==> wf_entry(
                (#[trigger] self.index_map()[id])@,
                self.rows().len(),
            )
    }

    /// The rows of the playlist, for rendering.
    pub fn playables(&self) -> (r: &Vec<DiscogsTrack>)
        ensures
            r@ == self.rows(),
    {
        &self.playables
    }

    /// Appends the tracks of a release, recording which rows they landed in.
    /// A release already present is left untouched.
    pub fn append(&mut self, id: i32, tracks: Vec<DiscogsTrack>)
        requires
            old(self).wf(),
        ensures
            final(self).wf(),
            old(self).index_map().contains_key(id) ==> final(self).rows() == old(self).rows()
                && final(self).index_map() == old(self).index_map(),
            !old(self).index_map().contains_key(id) ==> {
                &&& final(self).rows() == old(self).rows() + tracks@
                &&& final(self).index_map().contains_key(id)
                &&& final(self).index_map()[id]@ == Seq::new(
                    tracks@.len(),
                    |k: int| (old(self).rows().len() + k) as usize,
                )
                &&& forall|other: i32|
                    other != id ==> (final(self).index_map().contains_key(other)
                        == old(self).index_map().contains_key(other))
                        && (old(self).index_map().contains_key(other)
                        ==> final(self).index_map()[other] == old(self).index_map()[other])
            },
    {
        if self.lookup_mapping.contains_key(&id) {
            proof {
                assert(self.lookup_mapping@.contains_key(id));
            }
            return ;
        }
        let ghost rows0 = self.playables@;
        let ghost all = tracks@;
        let mut tracks = tracks;
        let mut indexes: Vec<usize> = Vec::new();
        proof {
            assert(rows0 + all.take(0) =~= rows0);
            assert(indexes@ =~= Seq::new(0nat, |k: int| (rows0.len() + k) as usize));
        }
        while tracks.len() > 0
            invariant
                self.lookup_mapping@ == old(self).lookup_mapping@,
                rows0 == old(self).playables@,
                tracks@.len() <= all.len(),
                tracks@ == all.skip(all.len() - tracks@.len()),
                self.playables@ == rows0 + all.take(all.len() - tracks@.len()),
                indexes@ == Seq::new(
                    (all.len() - tracks@.len()) as nat,
                    |k: int| (rows0.len() + k) as usize,
                ),
            decreases tracks@.len(),
        {
            let ghost done = all.len() - tracks@.len();
            let t = tracks.remove(0);
            self.playables.push(t);
            proof {
                assert(all.skip(done)[0] == all[done]);
                assert(tracks@ =~= all.skip(done + 1));
                assert(all.take(done + 1).drop_last() =~= all.take(done));
                assert(self.playables@ =~= rows0 + all.take(done + 1));
            }
            indexes.push(self.playables.len() - 1);
            proof {
                assert(indexes@ =~= Seq::new((done + 1) as nat, |k: int| (rows0.len() + k) as usize));
            }
        }
        let total = self.playables.len();
        proof {
            assert(all.take(all.len() as int) =~= all);
            assert(total == rows0.len() + all.len());
        }
        self.lookup_mapping.insert(id, indexes);
        proof {
            assert forall|other: i32| #[trigger]
                self.lookup_mapping@.contains_key(other) implies wf_entry(
                self.lookup_mapping@[other]@,
                self.playables@.len(),
            ) by {
                if other == id {
                    let entry = self.lookup_mapping@[other]@;
                    assert(entry == Seq::new(all.len(), |k: int| (rows0.len() + k) as usize));
                    assert forall|k: int| 0 <= k < entry.len() implies (#[trigger] entry[k])
                        < self.playables@.len() by {
                        assert(rows0.len() + k < total);
                    }
                    assert forall|k1: int, k2: int|
                        0 <= k1 < k2 < entry.len() implies entry[k1] != entry[k2] by {
                        assert(rows0.len() + k1 < total);
                        assert(rows0.len() + k2 <= total);
                        assert(entry[k1] == (rows0.len() + k1) as usize);
                        assert(entry[k2] == (rows0.len() + k2) as usize);
                    }
                } else {
                    assert(old(self).index_map().contains_key(other));
                    assert(wf_entry(old(self).index_map()[other]@, rows0.len()));
                    assert(self.lookup_mapping@[other] == old(self).lookup_mapping@[other]);
                }
            }
        }
    }

    /// Hands the crawled streams of a release to its rows, pairing the
    /// streams position by position with the rows the release occupies.
    /// Rows beyond the shorter of the two lists keep what they had.
    pub fn update_streams(&mut self, release_id: i32, streams: Vec<Vec<Option<Stream>>>)
        requires
            old(self).wf(),
            old(self).index_map().contains_key(release_id),
        ensures
            final(self).wf(),
            final(self).index_map() == old(self).index_map(),
            final(self).rows().len() == old(self).rows().len(),
            ({
                let idxs = old(self).index_map()[release_id]@;
                let m = if streams@.len() < idxs.len() {
                    streams@.len() as int
                } else {
                    idxs.len() as int
                };
                &&& forall|p: int|
                    0 <= p < m ==> final(self).rows()[idxs[p] as int] == (DiscogsTrack {
                        streams: row_streams(final(self).rows()[idxs[p] as int]),
                        ..old(self).rows()[idxs[p] as int]
                    }) && final(self).rows()[idxs[p] as int].streams@ == flatten_options(
                        streams@[p]@,
                    )
                &&& forall|q: int|
                    0 <= q < old(self).rows().len() && !idxs.take(m).contains(q as usize)
                        ==> final(self).rows()[q] == old(self).rows()[q]
            }),
    {
        let indexes: Vec<usize> = match self.lookup_mapping.get(&release_id) {
            Some(v) => v.clone(),
            None => Vec::new(),  // unreachable: the release is required to be present
        };
        proof {
            assert(indexes@ == old(self).lookup_mapping@[release_id]@);
        }
        let m = if streams.len() < indexes.len() {
            streams.len()
        } else {
            indexes.len()
        };
        let ghost all = streams@;
        let ghost rows0 = self.playables@;
        let ghost idxs = indexes@;
        let mut streams = streams;
        let mut p: usize = 0;
        while p < m
            invariant
                self.lookup_mapping@ == old(self).lookup_mapping@,
                rows0 == old(self).playables@,
                idxs == old(self).lookup_mapping@[release_id]@,
                indexes@ == idxs,
                wf_entry(idxs, rows0.len()),
                p <= m,
                m <= idxs.len(),
                m <= all.len(),
                streams@.len() == all.len() - p,
                streams@ == all.skip(p as int),
                self.playables@.len() == rows0.len(),
                forall|i: int|
                    0 <= i < p ==> self.playables@[idxs[i] as int] == (DiscogsTrack {
                        streams: row_streams(self.playables@[idxs[i] as int]),
                        ..rows0[idxs[i] as int]
                    }) && self.playables@[idxs[i] as int].streams@ == flatten_options(all[i]@),
                forall|q: int|
                    0 <= q < rows0.len() && !idxs.take(p as int).contains(q as usize)
                        ==> self.playables@[q] == rows0[q],
            decreases m - p,
        {
            let track_streams = streams.remove(0);
            proof {
                assert(all.skip(p as int)[0] == all[p as int]);
                assert(streams@ =~= all.skip(p + 1));
            }
            let flat = flatten_stream_options(track_streams);
            let idx = indexes[p];
            let ghost before_rows = self.playables@;
            set_row_streams(&mut self.playables, idx, flat);
            proof {
                assert forall|i: int|
                    0 <= i < p + 1 implies self.playables@[idxs[i] as int] == (DiscogsTrack {
                    streams: row_streams(self.playables@[idxs[i] as int]),
                    ..rows0[idxs[i] as int]
                }) && self.playables@[idxs[i] as int].streams@ == flatten_options(all[i]@) by {
                    if i < p {
                        assert(idxs[i] != idxs[p as int]);
                        assert(self.playables@[idxs[i] as int] == before_rows[idxs[i] as int]);
                    } else {
                        assert(!idxs.take(p as int).contains(idxs[p as int])) by {
                            assert forall|k: int|
                                0 <= k < p implies idxs.take(p as int)[k] != idxs[p as int] by {
                                assert(idxs[k] != idxs[p as int]);
                            }
                        }
                        assert(before_rows[idxs[p as int] as int] == rows0[idxs[p as int] as int]);
                    }
                }
                assert forall|q: int|
                    0 <= q < rows0.len() && !idxs.take(p + 1).contains(q as usize)
                        implies self.playables@[q] == rows0[q] by {
                    assert forall|k: int|
                        0 <= k < p implies idxs.take(p as int)[k] != q by {
                        assert(idxs.take(p + 1)[k] == idxs[k]);
                    }
                    assert(!idxs.take(p as int).contains(q as usize));
                    assert(idxs.take(p + 1)[p as int] == idxs[p as int]);
                    assert(q != idxs[p as int]);
                }
            }
            p = p + 1;
        }
        proof {
            assert(m as int == (if all.len() < idxs.len() {
                all.len() as int
            } else {
                idxs.len() as int
            }));
        }
    }

    /// Marks every row of a release with a new crawl status.
    pub fn status_update(&mut self, release_id: i32, status: DiscogsTrackStatus)
        requires
            old(self).wf(),
            old(self).index_map().contains_key(release_id),
        ensures
            final(self).wf(),
            final(self).index_map() == old(self).index_map(),
            final(self).rows().len() == old(self).rows().len(),
            ({
                let idxs = old(self).index_map()[release_id]@;
                &&& forall|p: int|
                    0 <= p < idxs.len() ==> final(self).rows()[idxs[p] as int] == (DiscogsTrack {
                        status,
                        ..old(self).rows()[idxs[p] as int]
                    })
                &&& forall|q: int|
                    0 <= q < old(self).rows().len() && !idxs.contains(q as usize)
                        ==> final(self).rows()[q] == old(self).rows()[q]
            }),
    {
        let indexes: Vec<usize> = match self.lookup_mapping.get(&release_id) {
            Some(v) => v.clone(),
            None => Vec::new(),  // unreachable: the release is required to be present
        };
        proof {
            assert(indexes@ == old(self).lookup_mapping@[release_id]@);
        }
        let ghost rows0 = self.playables@;
        let ghost idxs = indexes@;
        let n = indexes.len();
        let mut p: usize = 0;
        while p < n
            invariant
                self.lookup_mapping@ == old(self).lookup_mapping@,
                rows0 == old(self).playables@,
                idxs == old(self).lookup_mapping@[release_id]@,
                indexes@ == idxs,
                wf_entry(idxs, rows0.len()),
                p <= n,
                n == idxs.len(),
                self.playables@.len() == rows0.len(),
                forall|i: int|
                    0 <= i < p ==> self.playables@[idxs[i] as int] == (DiscogsTrack {
                        status,
                        ..rows0[idxs[i] as int]
                    }),
                forall|q: int|
                    0 <= q < rows0.len() && !idxs.take(p as int).contains(q as usize)
                        ==> self.playables@[q] == rows0[q],
            decreases n - p,
        {
            let idx = indexes[p];
            let ghost before_rows = self.playables@;
            set_row_status(&mut self.playables, idx, status);
            proof {
                assert forall|i: int|
                    0 <= i < p + 1 implies self.playables@[idxs[i] as int] == (DiscogsTrack {
                    status,
                    ..rows0[idxs[i] as int]
                }) by {
                    if i < p {
                        assert(idxs[i] != idxs[p as int]);
                        assert(self.playables@[idxs[i] as int] == before_rows[idxs[i] as int]);
                    } else {
                        assert(!idxs.take(p as int).contains(idxs[p as int])) by {
                            assert forall|k: int|
                                0 <= k < p implies idxs.take(p as int)[k] != idxs[p as int] by {
                                assert(idxs[k] != idxs[p as int]);
                            }
                        }
                        assert(before_rows[idxs[p as int] as int] == rows0[idxs[p as int] as int]);
                    }
                }
                assert forall|q: int|
                    0 <= q < rows0.len() && !idxs.take(p + 1).contains(q as usize)
                        implies self.playables@[q] == rows0[q] by {
                    assert forall|k: int|
                        0 <= k < p implies idxs.take(p as int)[k] != q by {
                        assert(idxs.take(p + 1)[k] == idxs[k]);
                    }
                    assert(!idxs.take(p as int).contains(q as usize));
                    assert(idxs.take(p + 1)[p as int] == idxs[p as int]);
                    assert(q != idxs[p as int]);
                }
            }
            p = p + 1;
        }
        proof {
            assert(idxs.take(n as int) =~= idxs);
        }
    }
}

} // verus!
