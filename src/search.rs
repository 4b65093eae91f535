use vstd::prelude::*;
use crate::activity::logged_once;
use crate::catalog::{average_rating, rating_mean};
use crate::pairs::{contains_id, contains_text_entry, has_text};
use crate::store::{lemma_filter_step, lemma_views_push, views, Store};
use crate::text::{contains_text, decimal, has_sub, join2, join3, lower_of, to_decimal, to_lower};
use crate::types::{Comment, Payment, Track, TrackAnalytics, TrackView};

verus! {

/// The total of the payments made.
pub open spec fn revenue(s: Seq<Payment>) -> int
    decreases s.len(),
{
    if s.len() == 0 {
        0
    } else {
        revenue(s.drop_last()) + s.last().amount
    }
}

/// The figures derived from a track.
pub open spec fn analytics_of(t: TrackView) -> TrackAnalytics {
    TrackAnalytics {
        play_count: t.play_count,
        revenue: revenue(t.payments) as u64,
        comments_count: t.comments.len() as u64,
        ratings_count: t.ratings.len() as u64,
        avg_rating: average_rating(t.ratings),
    }
}

/// The details logged for a comment.
pub open spec fn comment_details(track_id: u64, text: Seq<char>) -> Seq<char> {
    "Commented on track "@ + decimal(track_id as nat) + ": "@ + text
}

pub open spec fn by_contributor(artist_id: u64) -> spec_fn(TrackView) -> bool {
    |t: TrackView| t.contributors.contains(artist_id)
}

pub open spec fn by_tag(tag: Seq<char>) -> spec_fn(TrackView) -> bool {
    |t: TrackView| has_text(t.tags, tag)
}

pub open spec fn by_genre(genre: Seq<char>) -> spec_fn(TrackView) -> bool {
    |t: TrackView| t.genre matches Some(g) && g@ == genre
}

/// A title matches a query when, both lowercased, the query occurs in it.
pub open spec fn by_title(lowered_query: Seq<char>) -> spec_fn(TrackView) -> bool {
    |t: TrackView| has_sub(lower_of(t.title@), lowered_query)
}

pub open spec fn not_text(tag: Seq<char>) -> spec_fn(String) -> bool {
    |s: String| s@ != tag
}

/// Whether a lowercased text holds a lowercased query; every text holds the
/// empty query.
pub fn matches_lowered(lowered_text: &str, lowered_query: &str) -> (r: bool)
    ensures
        r == has_sub(lowered_text@, lowered_query@),
{
    contains_text(lowered_text, lowered_query)
}

impl Store {
    /// Adds a comment to a track and logs it for the commenter. Fails, changing
    /// nothing, when the track is unknown.
    pub fn add_comment(&mut self, track_id: u64, commenter: u64, text: String, now: u64) -> (r:
        Option<Track>)
        requires
            old(self).wf(),
        ensures
            final(self).wf(),
            r is Some <==> old(self).track_index(track_id) >= 0,
            r is None ==> *final(self) == *old(self),
            r matches Some(t) ==> {
                let k = old(self).track_index(track_id);
                let before = old(self).track_of(track_id);
                &&& t@ == TrackView {
                    comments: before.comments.push(Comment { commenter, text }),
                    ..before
                }
                &&& final(self).tracks_view() == old(self).tracks_view().update(k, t@)
                &&& logged_once(
                    old(self).activity_log@,
                    final(self).activity_log@,
                    commenter,
                    "add_comment"@,
                    now,
                    comment_details(track_id, text@),
                )
                &&& final(self).same_artists(old(self))
                &&& final(self).next_track_id == old(self).next_track_id
                &&& final(self).same_versions(old(self))
                &&& final(self).same_user_log(old(self))
                &&& final(self).same_requests(old(self))
                &&& final(self).same_tasks(old(self))
                &&& final(self).community == old(self).community
            },
    {
        let i = match self.find_track(track_id) {
            Some(i) => i,
            None => {
                return None;
            },
        };
        let number = to_decimal(track_id);
        let head = join3("Commented on track ", number.as_str(), ": ");
        let details = join2(head.as_str(), text.as_str());
        let mut t = self.tracks[i].clone();
        t.comments.push(Comment { commenter, text });
        let result = t.clone();
        proof {
            crate::store::lemma_views_update(self.tracks@, i as int, t);
        }
        self.tracks.set(i, t);
        self.log_activity(commenter, "add_comment", now, details.as_str());
        Some(result)
    }

    /// The comments on a track, oldest first; empty for an unknown track.
    pub fn list_comments(&self, track_id: u64) -> (r: Vec<Comment>)
        ensures
            r@ == (match self.track_at(track_id) {
                Some(t) => t.comments,
                None => Seq::empty(),
            }),
    {
        match self.find_track(track_id) {
            Some(i) => self.tracks[i].comments.clone(),
            None => Vec::new(),
        }
    }

    /// Tags a track; a tag already there is not added twice. Fails when the track
    /// is unknown.
    pub fn add_tag(&mut self, track_id: u64, tag: String) -> (r: bool)
        requires
            old(self).wf(),
        ensures
            final(self).wf(),
            r == (old(self).track_index(track_id) >= 0),
            final(self).only_tracks_differ(old(self)),
            !r ==> final(self).tracks == old(self).tracks,
            r ==> {
                let t = old(self).track_of(track_id);
                &&& has_text(t.tags, tag@) ==> final(self).tracks == old(self).tracks
                &&& !has_text(t.tags, tag@) ==> final(self).tracks_view()
                    == old(self).tracks_view().update(
                    old(self).track_index(track_id),
                    TrackView { tags: t.tags.push(tag), ..t },
                )
            },
    {
        match self.find_track(track_id) {
            Some(i) => {
                if !contains_text_entry(&self.tracks[i].tags, &tag) {
                    let mut t = self.tracks[i].clone();
                    t.tags.push(tag);
                    proof {
                        crate::store::lemma_views_update(self.tracks@, i as int, t);
                    }
                    self.tracks.set(i, t);
                }
                true
            },
            None => false,
        }
    }

    /// Takes every copy of a tag off a track. Fails when the track is unknown.
    pub fn remove_tag(&mut self, track_id: u64, tag: String) -> (r: bool)
        requires
            old(self).wf(),
        ensures
            final(self).wf(),
            r == (old(self).track_index(track_id) >= 0),
            final(self).only_tracks_differ(old(self)),
            !r ==> final(self).tracks == old(self).tracks,
            r ==> {
                let t = old(self).track_of(track_id);
                final(self).tracks_view() == old(self).tracks_view().update(
                    old(self).track_index(track_id),
                    TrackView { tags: t.tags.filter(not_text(tag@)), ..t },
                )
            },
    {
        let i = match self.find_track(track_id) {
            Some(i) => i,
            None => {
                return false;
            },
        };
        let mut t = self.tracks[i].clone();
        let ghost tags = t.tags@;
        let mut kept: Vec<String> = Vec::new();
        let mut k: usize = 0;
        while k < t.tags.len()
            invariant
                tags == t.tags@,
                k <= tags.len(),
                kept@ == tags.take(k as int).filter(not_text(tag@)),
            decreases tags.len() - k,
        {
            proof {
                lemma_filter_step(tags, not_text(tag@), k as int);
            }
            if t.tags[k] != tag {
                kept.push(t.tags[k].clone());
            }
            k = k + 1;
        }
        proof {
            assert(tags.take(tags.len() as int) =~= tags);
        }
        t.tags = kept;
        proof {
            crate::store::lemma_views_update(self.tracks@, i as int, t);
        }
        self.tracks.set(i, t);
        true
    }

    /// Sets the genre of a track. Fails when the track is unknown.
    pub fn set_genre(&mut self, track_id: u64, genre: String) -> (r: bool)
        requires
            old(self).wf(),
        ensures
            final(self).wf(),
            r == (old(self).track_index(track_id) >= 0),
            final(self).only_tracks_differ(old(self)),
            !r ==> final(self).tracks == old(self).tracks,
            r ==> final(self).tracks_view() == old(self).tracks_view().update(
                old(self).track_index(track_id),
                TrackView { genre: Some(genre), ..old(self).track_of(track_id) },
            ),
    {
        match self.find_track(track_id) {
            Some(i) => {
                let mut t = self.tracks[i].clone();
                t.genre = Some(genre);
                proof {
                    crate::store::lemma_views_update(self.tracks@, i as int, t);
                }
                self.tracks.set(i, t);
                true
            },
            None => false,
        }
    }

    /// The genre of a track, if it has one.
    pub fn get_genre(&self, track_id: u64) -> (r: Option<String>)
        ensures
            r == (match self.track_at(track_id) {
                Some(t) => t.genre,
                None => None,
            }),
    {
        match self.find_track(track_id) {
            Some(i) => self.tracks[i].genre.clone(),
            None => None,
        }
    }

    /// Play count, revenue, comment and rating counts and mean rating of a track.
    pub fn get_track_analytics(&self, track_id: u64) -> (r: Option<TrackAnalytics>)
        requires
            self.track_at(track_id) matches Some(t) ==> t.ratings.len() <= u32::MAX && revenue(
                t.payments,
            ) <= u64::MAX,
        ensures
            r == (match self.track_at(track_id) {
                Some(t) => Some(analytics_of(t)),
                None => None,
            }),
    {
        let i = match self.find_track(track_id) {
            Some(i) => i,
            None => {
                return None;
            },
        };
        let t = &self.tracks[i];
        let payments = &t.payments;
        let mut total: u64 = 0;
        let mut k: usize = 0;
        while k < payments.len()
            invariant
                revenue(payments@) <= u64::MAX,
                k <= payments@.len(),
                total == revenue(payments@.take(k as int)),
            decreases payments@.len() - k,
        {
            proof {
                let p = payments@.take(k + 1);
                assert(p.drop_last() =~= payments@.take(k as int));
                lemma_revenue_prefix(payments@, k + 1);
            }
            total = total + payments[k].amount;
            k = k + 1;
        }
        proof {
            assert(payments@.take(payments@.len() as int) =~= payments@);
        }
        Some(
            TrackAnalytics {
                play_count: t.play_count,
                revenue: total,
                comments_count: t.comments.len() as u64,
                ratings_count: t.ratings.len() as u64,
                avg_rating: rating_mean(&t.ratings),
            },
        )
    }

    /// The tracks that list an artist among their contributors, in order.
    pub fn search_tracks_by_contributor(&self, artist_id: u64) -> (r: Vec<Track>)
        ensures
            views(r@) == self.tracks_view().filter(by_contributor(artist_id)),
    {
        let ghost s = self.tracks_view();
        let mut r: Vec<Track> = Vec::new();
        let mut i: usize = 0;
        while i < self.tracks.len()
            invariant
                s == self.tracks_view(),
                i <= s.len(),
                views(r@) == s.take(i as int).filter(by_contributor(artist_id)),
            decreases s.len() - i,
        {
            proof {
                lemma_filter_step(s, by_contributor(artist_id), i as int);
            }
            if contains_id(&self.tracks[i].contributors, artist_id) {
                let c = self.tracks[i].clone();
                proof {
                    lemma_views_push(r@, c);
                }
                r.push(c);
            }
            i = i + 1;
        }
        proof {
            assert(s.take(s.len() as int) =~= s);
        }
        r
    }

    /// The tracks that carry a tag, in order.
    pub fn search_tracks_by_tag(&self, tag: String) -> (r: Vec<Track>)
        ensures
            views(r@) == self.tracks_view().filter(by_tag(tag@)),
    {
        let ghost s = self.tracks_view();
        let mut r: Vec<Track> = Vec::new();
        let mut i: usize = 0;
        while i < self.tracks.len()
            invariant
                s == self.tracks_view(),
                i <= s.len(),
                views(r@) == s.take(i as int).filter(by_tag(tag@)),
            decreases s.len() - i,
        {
            proof {
                lemma_filter_step(s, by_tag(tag@), i as int);
            }
            if contains_text_entry(&self.tracks[i].tags, &tag) {
                let c = self.tracks[i].clone();
                proof {
                    lemma_views_push(r@, c);
                }
                r.push(c);
            }
            i = i + 1;
        }
        proof {
            assert(s.take(s.len() as int) =~= s);
        }
        r
    }

    /// The tracks of a genre, in order.
    pub fn search_tracks_by_genre(&self, genre: String) -> (r: Vec<Track>)
        ensures
            views(r@) == self.tracks_view().filter(by_genre(genre@)),
    {
        let ghost s = self.tracks_view();
        let mut r: Vec<Track> = Vec::new();
        let mut i: usize = 0;
        while i < self.tracks.len()
            invariant
                s == self.tracks_view(),
                i <= s.len(),
                views(r@) == s.take(i as int).filter(by_genre(genre@)),
            decreases s.len() - i,
        {
            proof {
                lemma_filter_step(s, by_genre(genre@), i as int);
            }
            let hit = match &self.tracks[i].genre {
                Some(g) => *g == genre,
                None => false,
            };
            if hit {
                let c = self.tracks[i].clone();
                proof {
                    lemma_views_push(r@, c);
                }
                r.push(c);
            }
            i = i + 1;
        }
        proof {
            assert(s.take(s.len() as int) =~= s);
        }
        r
    }

    /// The tracks whose title holds the query, ignoring case, in order; every
    /// track for an empty query.
    pub fn search_tracks_by_title(&self, query: String) -> (r: Vec<Track>)
        ensures
            views(r@) == self.tracks_view().filter(by_title(lower_of(query@))),
    {
        let q = to_lower(query.as_str());
        let ghost s = self.tracks_view();
        let mut r: Vec<Track> = Vec::new();
        let mut i: usize = 0;
        while i < self.tracks.len()
            invariant
                s == self.tracks_view(),
                q@ == lower_of(query@),
                i <= s.len(),
                views(r@) == s.take(i as int).filter(by_title(q@)),
            decreases s.len() - i,
        {
            proof {
                lemma_filter_step(s, by_title(q@), i as int);
            }
            let title = to_lower(self.tracks[i].title.as_str());
            if matches_lowered(title.as_str(), q.as_str()) {
                let c = self.tracks[i].clone();
                proof {
                    lemma_views_push(r@, c);
                }
                r.push(c);
            }
            i = i + 1;
        }
        proof {
            assert(s.take(s.len() as int) =~= s);
        }
        r
    }
}

/// The payments of a prefix add up to no more than all of them.
pub proof fn lemma_revenue_prefix(s: Seq<Payment>, i: int)
    requires
        0 <= i <= s.len(),
    ensures
        0 <= revenue(s.take(i)) <= revenue(s),
    decreases s.len() - i,
{
    if i < s.len() {
        lemma_revenue_prefix(s, i + 1);
        assert(s.take(i + 1).drop_last() =~= s.take(i));
    } else {
        assert(s.take(i) =~= s);
    }
    lemma_revenue_nonneg(s.take(i));
}

pub proof fn lemma_revenue_nonneg(s: Seq<Payment>)
    ensures
        revenue(s) >= 0,
    decreases s.len(),
{
    if s.len() > 0 {
        lemma_revenue_nonneg(s.drop_last());
    }
}

} // verus!
