use vstd::prelude::*;
use crate::community::Community;
use crate::types::{Activity, Artist, CollabRequest, Task, Track, TrackVersion, TrackView, UserActivity};

verus! {

/// The index of the first element of `s` that satisfies `p`, or -1 if none does.
pub open spec fn first_match<T>(s: Seq<T>, p: spec_fn(T) -> bool) -> int
    decreases s.len(),
{
    if s.len() == 0 {
        -1
    } else {
        let k = first_match(s.drop_last(), p);
        if k >= 0 {
            k
        } else if p(s.last()) {
            s.len() - 1
        } else {
            -1
        }
    }
}

/// What `first_match` returns: -1 when nothing matches, otherwise a matching
/// index with no match before it.
pub proof fn lemma_first_match<T>(s: Seq<T>, p: spec_fn(T) -> bool)
    ensures
        -1 <= first_match(s, p) < s.len(),
        first_match(s, p) == -1 <==> forall|i: int| 0 <= i < s.len() ==> !p(#[trigger] s[i]),
        first_match(s, p) >= 0 ==> p(s[first_match(s, p)]),
        forall|j: int| 0 <= j < first_match(s, p) ==> !p(#[trigger] s[j]),
    decreases s.len(),
{
    if s.len() > 0 {
        lemma_first_match(s.drop_last(), p);
        assert forall|i: int| 0 <= i < s.len() - 1 implies s[i] == s.drop_last()[i] by {}
    }
}

/// Pins `first_match` down from a loop's view of it.
pub proof fn lemma_first_match_at<T>(s: Seq<T>, p: spec_fn(T) -> bool, i: int)
    requires
        0 <= i < s.len(),
        p(s[i]),
        forall|j: int| 0 <= j < i ==> !p(#[trigger] s[j]),
    ensures
        first_match(s, p) == i,
{
    lemma_first_match(s, p);
}

/// One more element of `s` taken through a filter.
pub proof fn lemma_filter_step<T>(s: Seq<T>, p: spec_fn(T) -> bool, i: int)
    requires
        0 <= i < s.len(),
    ensures
        s.take(i + 1).filter(p) == (if p(s[i]) {
            s.take(i).filter(p).push(s[i])
        } else {
            s.take(i).filter(p)
        }),
{
    let t = s.take(i + 1);
    assert(t.drop_last() =~= s.take(i));
    assert(t.last() == s[i]);
    assert(t.len() > 0);
    reveal_with_fuel(Seq::filter, 1);
}

/// The values of a sequence that grows by one record.
pub proof fn lemma_views_push<T: View>(s: Seq<T>, x: T)
    ensures
        views(s.push(x)) == views(s).push(x@),
{
    assert(views(s.push(x)) =~= views(s).push(x@));
}

/// A record changed at one place.
pub proof fn lemma_views_update<T: View>(s: Seq<T>, i: int, x: T)
    requires
        0 <= i < s.len(),
    ensures
        views(s.update(i, x)) == views(s).update(i, x@),
{
    assert(views(s.update(i, x)) =~= views(s).update(i, x@));
}

/// A first match is kept when an element is appended.
pub proof fn lemma_first_match_push<T>(s: Seq<T>, x: T, p: spec_fn(T) -> bool)
    ensures
        first_match(s.push(x), p) == (if first_match(s, p) >= 0 {
            first_match(s, p)
        } else if p(x) {
            s.len() as int
        } else {
            -1
        }),
{
    assert(s.push(x).drop_last() =~= s);
}

/// `first_match` only looks at whether each element matches.
pub proof fn lemma_first_match_same<T>(s: Seq<T>, t: Seq<T>, p: spec_fn(T) -> bool)
    requires
        s.len() == t.len(),
        forall|i: int| 0 <= i < s.len() ==> p(#[trigger] s[i]) == p(t[i]),
    ensures
        first_match(s, p) == first_match(t, p),
{
    lemma_first_match(s, p);
    lemma_first_match(t, p);
    let a = first_match(s, p);
    if a >= 0 {
        assert(p(t[a]));
        assert forall|j: int| 0 <= j < a implies !p(#[trigger] t[j]) by {
            assert(!p(s[j]));
        }
        lemma_first_match_at(t, p, a);
    } else {
        assert forall|i: int| 0 <= i < t.len() implies !p(#[trigger] t[i]) by {
            assert(!p(s[i]));
        }
    }
}

/// A filter that keeps every element matching `p` keeps the first match: both
/// find one or neither does, and it is the same element.
pub proof fn lemma_first_match_filter<T>(s: Seq<T>, p: spec_fn(T) -> bool, q: spec_fn(T) -> bool)
    requires
        forall|x: T| #[trigger] p(x) ==> q(x),
    ensures
        (first_match(s, p) == -1) == (first_match(s.filter(q), p) == -1),
        first_match(s, p) >= 0 ==> s[first_match(s, p)] == s.filter(q)[first_match(
            s.filter(q),
            p,
        )],
    decreases s.len(),
{
    if s.len() > 0 {
        let s0 = s.drop_last();
        lemma_first_match_filter(s0, p, q);
        lemma_first_match(s0, p);
        lemma_first_match(s0.filter(q), p);
        let f0 = s0.filter(q);
        reveal_with_fuel(Seq::filter, 1);
        assert(s.filter(q) == (if q(s.last()) {
            f0.push(s.last())
        } else {
            f0
        }));
        if q(s.last()) {
            lemma_first_match_push(f0, s.last(), p);
        }
        let a = first_match(s0, p);
        lemma_first_match(s, p);
        if a >= 0 {
            assert(s[a] == s0[a]);
        }
    }
}

/// A search that found the element at `r`, or nothing, as an index.
pub open spec fn opt_index(r: Option<usize>) -> int {
    match r {
        Some(i) => i as int,
        None => -1,
    }
}

/// The values of a sequence of records.
pub open spec fn views<T: View>(s: Seq<T>) -> Seq<T::V> {
    s.map_values(|x: T| x@)
}

pub open spec fn track_has_id(id: u64) -> spec_fn(Track) -> bool {
    |t: Track| t.id == id
}

pub open spec fn artist_has_id(id: u64) -> spec_fn(Artist) -> bool {
    |a: Artist| a.id == id
}

pub open spec fn history_has_id(id: u64) -> spec_fn(HistoryView) -> bool {
    |h: HistoryView| h.track_id == id
}

pub open spec fn task_has_id(id: u64) -> spec_fn(Task) -> bool {
    |t: Task| t.id == id
}

pub open spec fn request_is_pending(id: u64) -> spec_fn(CollabRequest) -> bool {
    |r: CollabRequest| r.id == id && r.status == crate::types::CollabRequestStatus::Pending
}

/// The versions recorded for one track, oldest first.
#[derive(Debug)]
pub struct VersionHistory {
    pub track_id: u64,
    pub versions: Vec<TrackVersion>,
}

pub struct HistoryView {
    pub track_id: u64,
    pub versions: Seq<crate::types::TrackVersionView>,
}

impl View for VersionHistory {
    type V = HistoryView;

    open spec fn view(&self) -> HistoryView {
        HistoryView { track_id: self.track_id, versions: views(self.versions@) }
    }
}

impl Clone for VersionHistory {
    fn clone(&self) -> (r: Self)
        ensures
            r@ == self@,
    {
        let versions = self.versions.clone();
        proof {
            assert(views(versions@) =~= views(self.versions@));
        }
        VersionHistory { track_id: self.track_id, versions }
    }
}

/// The whole state of the platform: one collection per kind of record and the
/// counters that hand out their ids.
#[derive(Debug)]
pub struct Store {
    pub artists: Vec<Artist>,
    pub tracks: Vec<Track>,
    pub track_versions: Vec<VersionHistory>,
    pub activity_log: Vec<Activity>,
    pub user_activity_log: Vec<UserActivity>,
    pub collab_requests: Vec<CollabRequest>,
    pub tasks: Vec<Task>,
    pub next_artist_id: u64,
    pub next_track_id: u64,
    pub next_collab_request_id: u64,
    pub next_task_id: u64,
    pub community: Community,
}

impl Store {
    /// An empty store whose counters all start at 1.
    pub fn new() -> (r: Store)
        ensures
            r.artists@.len() == 0,
            r.tracks@.len() == 0,
            r.track_versions@.len() == 0,
            r.activity_log@.len() == 0,
            r.user_activity_log@.len() == 0,
            r.collab_requests@.len() == 0,
            r.tasks@.len() == 0,
            r.next_artist_id == 1,
            r.next_track_id == 1,
            r.next_collab_request_id == 1,
            r.next_task_id == 1,
            r.wf(),
    {
        Store {
            artists: Vec::new(),
            tracks: Vec::new(),
            track_versions: Vec::new(),
            activity_log: Vec::new(),
            user_activity_log: Vec::new(),
            collab_requests: Vec::new(),
            tasks: Vec::new(),
            next_artist_id: 1,
            next_track_id: 1,
            next_collab_request_id: 1,
            next_task_id: 1,
            community: Community::new(),
        }
    }

    /// Every id handed out so far lies below the counter that handed it out, so a
    /// fresh id names nothing yet.
    pub open spec fn wf(&self) -> bool {
        &&& forall|i: int| 0 <= i < self.artists@.len() ==> #[trigger] self.artists@[i].id < self.next_artist_id
        &&& forall|i: int, j: int|
            0 <= i < j < self.artists@.len() ==> #[trigger] self.artists@[i].id != #[trigger] self.artists@[j].id
        &&& forall|i: int| 0 <= i < self.tracks@.len() ==> #[trigger] self.tracks@[i].id < self.next_track_id
        &&& forall|i: int|
            0 <= i < self.track_versions@.len() ==> #[trigger] self.track_versions@[i].track_id
                < self.next_track_id
        &&& forall|i: int|
            0 <= i < self.collab_requests@.len() ==> #[trigger] self.collab_requests@[i].id
                < self.next_collab_request_id
        &&& forall|i: int| 0 <= i < self.tasks@.len() ==> #[trigger] self.tasks@[i].id < self.next_task_id
    }

    /// Artists, and the counter for their ids, are as in `o`.
    pub open spec fn same_artists(&self, o: &Store) -> bool {
        self.artists == o.artists && self.next_artist_id == o.next_artist_id
    }

    /// Tracks, and the counter for their ids, are as in `o`.
    pub open spec fn same_tracks(&self, o: &Store) -> bool {
        self.tracks == o.tracks && self.next_track_id == o.next_track_id
    }

    pub open spec fn same_versions(&self, o: &Store) -> bool {
        self.track_versions == o.track_versions
    }

    pub open spec fn same_log(&self, o: &Store) -> bool {
        self.activity_log == o.activity_log
    }

    pub open spec fn same_user_log(&self, o: &Store) -> bool {
        self.user_activity_log == o.user_activity_log
    }

    /// Collaboration requests, and the counter for their ids, are as in `o`.
    pub open spec fn same_requests(&self, o: &Store) -> bool {
        self.collab_requests == o.collab_requests && self.next_collab_request_id
            == o.next_collab_request_id
    }

    /// Tasks, and the counter for their ids, are as in `o`.
    pub open spec fn same_tasks(&self, o: &Store) -> bool {
        self.tasks == o.tasks && self.next_task_id == o.next_task_id
    }

    /// Only the tracks differ from `o`, and not the counter for their ids.
    pub open spec fn only_tracks_differ(&self, o: &Store) -> bool {
        &&& self.same_artists(o)
        &&& self.next_track_id == o.next_track_id
        &&& self.same_versions(o)
        &&& self.same_log(o)
        &&& self.same_user_log(o)
        &&& self.same_requests(o)
        &&& self.same_tasks(o)
        &&& self.community == o.community
    }

    /// The artists, as values.
    pub open spec fn artists_view(&self) -> Seq<crate::types::ArtistView> {
        views(self.artists@)
    }

    /// The tracks, as values.
    pub open spec fn tracks_view(&self) -> Seq<TrackView> {
        views(self.tracks@)
    }

    /// Position of the track with this id, or -1.
    pub open spec fn track_index(&self, id: u64) -> int {
        first_match(self.tracks@, track_has_id(id))
    }

    /// Position of the artist with this id, or -1.
    pub open spec fn artist_index(&self, id: u64) -> int {
        first_match(self.artists@, artist_has_id(id))
    }

    /// Position of the version history of this track, or -1.
    pub open spec fn history_index(&self, id: u64) -> int {
        first_match(views(self.track_versions@), history_has_id(id))
    }

    /// Position of the task with this id, or -1.
    pub open spec fn task_index(&self, id: u64) -> int {
        first_match(self.tasks@, task_has_id(id))
    }

    /// Position of the pending collaboration request with this id, or -1.
    pub open spec fn pending_request_index(&self, id: u64) -> int {
        first_match(self.collab_requests@, request_is_pending(id))
    }

    /// The track with this id, if there is one.
    pub open spec fn track_at(&self, id: u64) -> Option<TrackView> {
        if self.track_index(id) >= 0 {
            Some(self.tracks@[self.track_index(id)]@)
        } else {
            None
        }
    }

    /// The versions recorded for a track, oldest first; empty for an unknown track.
    pub open spec fn versions_of(&self, id: u64) -> Seq<crate::types::TrackVersionView> {
        if self.history_index(id) >= 0 {
            views(self.track_versions@)[self.history_index(id)].versions
        } else {
            Seq::empty()
        }
    }

    pub(crate) fn find_track(&self, id: u64) -> (r: Option<usize>)
        ensures
            opt_index(r) == self.track_index(id),
            r matches Some(i) ==> i < self.tracks@.len() && self.tracks@[i as int].id == id,
    {
        let mut i: usize = 0;
        while i < self.tracks.len()
            invariant
                i <= self.tracks@.len(),
                forall|j: int| 0 <= j < i ==> (#[trigger] self.tracks@[j]).id != id,
            decreases self.tracks@.len() - i,
        {
            if self.tracks[i].id == id {
                proof {
                    lemma_first_match_at(self.tracks@, track_has_id(id), i as int);
                }
                return Some(i);
            }
            i = i + 1;
        }
        proof {
            lemma_first_match(self.tracks@, track_has_id(id));
        }
        None
    }

    pub(crate) fn find_artist(&self, id: u64) -> (r: Option<usize>)
        ensures
            opt_index(r) == self.artist_index(id),
            r matches Some(i) ==> i < self.artists@.len() && self.artists@[i as int].id == id,
    {
        let mut i: usize = 0;
        while i < self.artists.len()
            invariant
                i <= self.artists@.len(),
                forall|j: int| 0 <= j < i ==> (#[trigger] self.artists@[j]).id != id,
            decreases self.artists@.len() - i,
        {
            if self.artists[i].id == id {
                proof {
                    lemma_first_match_at(self.artists@, artist_has_id(id), i as int);
                }
                return Some(i);
            }
            i = i + 1;
        }
        proof {
            lemma_first_match(self.artists@, artist_has_id(id));
        }
        None
    }

    pub(crate) fn find_history(&self, id: u64) -> (r: Option<usize>)
        ensures
            opt_index(r) == self.history_index(id),
            r matches Some(i) ==> i < self.track_versions@.len()
                && self.track_versions@[i as int].track_id == id,
    {
        let mut i: usize = 0;
        while i < self.track_versions.len()
            invariant
                i <= self.track_versions@.len(),
                forall|j: int|
                    0 <= j < i ==> (#[trigger] views(self.track_versions@)[j]).track_id != id,
            decreases self.track_versions@.len() - i,
        {
            if self.track_versions[i].track_id == id {
                proof {
                    lemma_first_match_at(views(self.track_versions@), history_has_id(id), i as int);
                }
                return Some(i);
            }
            i = i + 1;
        }
        proof {
            lemma_first_match(views(self.track_versions@), history_has_id(id));
        }
        None
    }

    pub(crate) fn find_task(&self, id: u64) -> (r: Option<usize>)
        ensures
            opt_index(r) == self.task_index(id),
            r matches Some(i) ==> i < self.tasks@.len() && self.tasks@[i as int].id == id,
    {
        let mut i: usize = 0;
        while i < self.tasks.len()
            invariant
                i <= self.tasks@.len(),
                forall|j: int| 0 <= j < i ==> (#[trigger] self.tasks@[j]).id != id,
            decreases self.tasks@.len() - i,
        {
            if self.tasks[i].id == id {
                proof {
                    lemma_first_match_at(self.tasks@, task_has_id(id), i as int);
                }
                return Some(i);
            }
            i = i + 1;
        }
        proof {
            lemma_first_match(self.tasks@, task_has_id(id));
        }
        None
    }

    pub(crate) fn find_pending_request(&self, id: u64) -> (r: Option<usize>)
        ensures
            opt_index(r) == self.pending_request_index(id),
            r matches Some(i) ==> i < self.collab_requests@.len()
                && self.collab_requests@[i as int].id == id
                && self.collab_requests@[i as int].status
                == crate::types::CollabRequestStatus::Pending,
    {
        let mut i: usize = 0;
        while i < self.collab_requests.len()
            invariant
                i <= self.collab_requests@.len(),
                forall|j: int|
                    0 <= j < i ==> !(request_is_pending(id))(#[trigger] self.collab_requests@[j]),
            decreases self.collab_requests@.len() - i,
        {
            let r = &self.collab_requests[i];
            if r.id == id && r.status == crate::types::CollabRequestStatus::Pending {
                proof {
                    lemma_first_match_at(self.collab_requests@, request_is_pending(id), i as int);
                }
                return Some(i);
            }
            i = i + 1;
        }
        proof {
            lemma_first_match(self.collab_requests@, request_is_pending(id));
        }
        None
    }
}

} // verus!
