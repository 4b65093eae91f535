use vstd::prelude::*;
use crate::pairs::{contains_id, lookup, lookup_pair, upsert, upsert_pair};
use crate::store::{lemma_views_update, Store};
use crate::types::{Track, TrackRole, TrackView, TrackVisibility};

verus! {

/// The sum of the ratings given.
pub open spec fn rating_sum(s: Seq<(u64, u8)>) -> int
    decreases s.len(),
{
    if s.len() == 0 {
        0
    } else {
        rating_sum(s.drop_last()) + s.last().1
    }
}

/// The mean rating, truncated; zero when there is none.
pub open spec fn average_rating(s: Seq<(u64, u8)>) -> u8 {
    if s.len() > 0 {
        (rating_sum(s) / (s.len() as int)) as u8
    } else {
        0
    }
}

impl Store {
    /// The track with this id, as it stands; meaningful when there is one.
    pub open spec fn track_of(&self, id: u64) -> TrackView {
        self.tracks_view()[self.track_index(id)]
    }

    /// Puts a changed copy of a track back in its place.
    fn replace_track(&mut self, i: usize, t: Track)
        requires
            old(self).wf(),
            i < old(self).tracks@.len(),
            t.id == old(self).tracks@[i as int].id,
        ensures
            final(self).wf(),
            final(self).tracks_view() == old(self).tracks_view().update(i as int, t@),
            final(self).only_tracks_differ(old(self)),
    {
        proof {
            lemma_views_update(self.tracks@, i as int, t);
        }
        self.tracks.set(i, t);
    }

    /// Sets who may see a track. Fails when the track is unknown.
    pub fn set_track_visibility(&mut self, track_id: u64, visibility: TrackVisibility) -> (r: bool)
        requires
            old(self).wf(),
        ensures
            final(self).wf(),
            r == (old(self).track_index(track_id) >= 0),
            final(self).only_tracks_differ(old(self)),
            !r ==> final(self).tracks == old(self).tracks,
            r ==> final(self).tracks_view() == old(self).tracks_view().update(
                old(self).track_index(track_id),
                TrackView { visibility, ..old(self).track_of(track_id) },
            ),
    {
        match self.find_track(track_id) {
            Some(i) => {
                let mut t = self.tracks[i].clone();
                t.visibility = visibility;
                self.replace_track(i, t);
                true
            },
            None => false,
        }
    }

    /// Who may see a track.
    pub fn get_track_visibility(&self, track_id: u64) -> (r: Option<TrackVisibility>)
        ensures
            r == (match self.track_at(track_id) {
                Some(t) => Some(t.visibility),
                None => None,
            }),
    {
        match self.find_track(track_id) {
            Some(i) => Some(self.tracks[i].visibility),
            None => None,
        }
    }

    /// Invites a user to a track; inviting twice is the same as once. Fails when
    /// the track is unknown.
    pub fn invite_user(&mut self, track_id: u64, user_id: u64) -> (r: bool)
        requires
            old(self).wf(),
        ensures
            final(self).wf(),
            r == (old(self).track_index(track_id) >= 0),
            final(self).only_tracks_differ(old(self)),
            !r ==> final(self).tracks == old(self).tracks,
            r ==> {
                let t = old(self).track_of(track_id);
                final(self).tracks_view() == old(self).tracks_view().update(
                    old(self).track_index(track_id),
                    TrackView {
                        invited: if t.invited.contains(user_id) {
                            t.invited
                        } else {
                            t.invited.push(user_id)
                        },
                        ..t
                    },
                )
            },
    {
        match self.find_track(track_id) {
            Some(i) => {
                if !contains_id(&self.tracks[i].invited, user_id) {
                    let mut t = self.tracks[i].clone();
                    t.invited.push(user_id);
                    self.replace_track(i, t);
                } else {
                    proof {
                        assert(old(self).tracks_view().update(i as int, old(self).track_of(track_id))
                            =~= old(self).tracks_view());
                    }
                }
                true
            },
            None => false,
        }
    }

    /// Gives a user a role on a track, replacing any role it had there. Fails
    /// when the track is unknown.
    pub fn assign_role(&mut self, track_id: u64, user_id: u64, role: TrackRole) -> (r: bool)
        requires
            old(self).wf(),
        ensures
            final(self).wf(),
            r == (old(self).track_index(track_id) >= 0),
            final(self).only_tracks_differ(old(self)),
            !r ==> final(self).tracks == old(self).tracks,
            r ==> {
                let t = old(self).track_of(track_id);
                final(self).tracks_view() == old(self).tracks_view().update(
                    old(self).track_index(track_id),
                    TrackView { roles: upsert(t.roles, user_id, role), ..t },
                )
            },
    {
        match self.find_track(track_id) {
            Some(i) => {
                let mut t = self.tracks[i].clone();
                upsert_pair(&mut t.roles, user_id, role);
                self.replace_track(i, t);
                true
            },
            None => false,
        }
    }

    /// The role of a user on a track.
    pub fn get_user_role(&self, track_id: u64, user_id: u64) -> (r: Option<TrackRole>)
        ensures
            r == (match self.track_at(track_id) {
                Some(t) => lookup(t.roles, user_id),
                None => None,
            }),
    {
        match self.find_track(track_id) {
            Some(i) => lookup_pair(&self.tracks[i].roles, user_id),
            None => None,
        }
    }

    /// Records a user's rating of a track from 1 to 5, replacing the user's
    /// earlier rating. Fails, changing nothing, when the rating is out of range or
    /// the track is unknown.
    pub fn rate_track(&mut self, track_id: u64, user_id: u64, rating: u8) -> (r: bool)
        requires
            old(self).wf(),
        ensures
            final(self).wf(),
            r == (1 <= rating <= 5 && old(self).track_index(track_id) >= 0),
            final(self).only_tracks_differ(old(self)),
            !r ==> final(self).tracks == old(self).tracks,
            r ==> {
                let t = old(self).track_of(track_id);
                final(self).tracks_view() == old(self).tracks_view().update(
                    old(self).track_index(track_id),
                    TrackView { ratings: upsert(t.ratings, user_id, rating), ..t },
                )
            },
    {
        if rating < 1 || rating > 5 {
            return false;
        }
        match self.find_track(track_id) {
            Some(i) => {
                let mut t = self.tracks[i].clone();
                upsert_pair(&mut t.ratings, user_id, rating);
                self.replace_track(i, t);
                true
            },
            None => false,
        }
    }

    /// The number of ratings of a track and their truncated mean; zeros for an
    /// unknown track.
    pub fn get_track_rating(&self, track_id: u64) -> (r: (u32, u8))
        requires
            self.track_at(track_id) matches Some(t) ==> t.ratings.len() <= u32::MAX,
        ensures
            r == (match self.track_at(track_id) {
                Some(t) => (t.ratings.len() as u32, average_rating(t.ratings)),
                None => (0u32, 0u8),
            }),
    {
        match self.find_track(track_id) {
            Some(i) => {
                let ratings = &self.tracks[i].ratings;
                let count = ratings.len() as u32;
                let avg = rating_mean(ratings);
                (count, avg)
            },
            None => (0, 0),
        }
    }

    /// A user's rating of a track.
    pub fn get_user_track_rating(&self, track_id: u64, user_id: u64) -> (r: Option<u8>)
        ensures
            r == (match self.track_at(track_id) {
                Some(t) => lookup(t.ratings, user_id),
                None => None,
            }),
    {
        match self.find_track(track_id) {
            Some(i) => lookup_pair(&self.tracks[i].ratings, user_id),
            None => None,
        }
    }

    /// Counts one more play of a track. Fails when the track is unknown.
    pub fn increment_play_count(&mut self, track_id: u64) -> (r: bool)
        requires
            old(self).wf(),
            old(self).track_at(track_id) matches Some(t) ==> t.play_count < u64::MAX,
        ensures
            final(self).wf(),
            r == (old(self).track_index(track_id) >= 0),
            final(self).only_tracks_differ(old(self)),
            !r ==> final(self).tracks == old(self).tracks,
            r ==> {
                let t = old(self).track_of(track_id);
                final(self).tracks_view() == old(self).tracks_view().update(
                    old(self).track_index(track_id),
                    TrackView { play_count: (t.play_count + 1) as u64, ..t },
                )
            },
    {
        match self.find_track(track_id) {
            Some(i) => {
                let mut t = self.tracks[i].clone();
                t.play_count = t.play_count + 1;
                self.replace_track(i, t);
                true
            },
            None => false,
        }
    }

    /// Allows or forbids downloading a track. Fails when the track is unknown.
    pub fn set_track_downloadable(&mut self, track_id: u64, downloadable: bool) -> (r: bool)
        requires
            old(self).wf(),
        ensures
            final(self).wf(),
            r == (old(self).track_index(track_id) >= 0),
            final(self).only_tracks_differ(old(self)),
            !r ==> final(self).tracks == old(self).tracks,
            r ==> final(self).tracks_view() == old(self).tracks_view().update(
                old(self).track_index(track_id),
                TrackView { downloadable, ..old(self).track_of(track_id) },
            ),
    {
        match self.find_track(track_id) {
            Some(i) => {
                let mut t = self.tracks[i].clone();
                t.downloadable = downloadable;
                self.replace_track(i, t);
                true
            },
            None => false,
        }
    }

    /// Whether a track may be downloaded; never for an unknown track.
    pub fn can_download_track(&self, track_id: u64) -> (r: bool)
        ensures
            r == (match self.track_at(track_id) {
                Some(t) => t.downloadable,
                None => false,
            }),
    {
        match self.find_track(track_id) {
            Some(i) => self.tracks[i].downloadable,
            None => false,
        }
    }
}

/// The truncated mean of the ratings; zero when there is none.
pub fn rating_mean(ratings: &Vec<(u64, u8)>) -> (r: u8)
    requires
        ratings@.len() <= u32::MAX,
    ensures
        r == average_rating(ratings@),
{
    let n = ratings.len();
    let mut sum: u64 = 0;
    let mut i: usize = 0;
    while i < n
        invariant
            n == ratings@.len(),
            n <= u32::MAX,
            i <= n,
            sum == rating_sum(ratings@.take(i as int)),
            sum <= 255 * i,
        decreases n - i,
    {
        proof {
            let t = ratings@.take(i + 1);
            assert(t.drop_last() =~= ratings@.take(i as int));
        }
        sum = sum + ratings[i].1 as u64;
        i = i + 1;
    }
    proof {
        assert(ratings@.take(n as int) =~= ratings@);
    }
    if n > 0 {
        let avg = sum / (n as u64);
        proof {
            assert(avg <= 255) by (nonlinear_arith)
                requires
                    sum <= 255 * n,
                    n > 0,
                    avg == sum / (n as u64),
            ;
        }
        avg as u8
    } else {
        0
    }
}

} // verus!
