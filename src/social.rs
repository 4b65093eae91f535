use vstd::prelude::*;
use crate::community::{
    Community, FollowedArtists, FollowedArtistsView, FollowedTracks, FollowedTracksView, Message,
    Notification, PlayDownloadCount, Playlist, PlaylistView,
};
use crate::pairs::{contains_id, contains_text_entry, has_text};
use crate::search::not_text;
use crate::store::{
    first_match, lemma_filter_step, lemma_first_match, lemma_views_push, lemma_views_update,
    views, Store,
};
use crate::text::{blank, is_blank};

verus! {

pub open spec fn artists_of(p: Seq<char>) -> spec_fn(FollowedArtists) -> bool {
    |e: FollowedArtists| e.follower@ == p
}

pub open spec fn tracks_of(p: Seq<char>) -> spec_fn(FollowedTracks) -> bool {
    |e: FollowedTracks| e.follower@ == p
}

pub open spec fn id_is_not(id: u64) -> spec_fn(u64) -> bool {
    |x: u64| x != id
}

pub open spec fn notification_for(p: Seq<char>) -> spec_fn(Notification) -> bool {
    |n: Notification| n.user_principal@ == p
}

pub open spec fn own_notification(id: u64, p: Seq<char>) -> spec_fn(Notification) -> bool {
    |n: Notification| n.id == id && n.user_principal@ == p
}

pub open spec fn playlist_is(id: u64) -> spec_fn(Playlist) -> bool {
    |pl: Playlist| pl.id == id
}

pub open spec fn own_playlist(id: u64, p: Seq<char>) -> spec_fn(Playlist) -> bool {
    |pl: Playlist| pl.id == id && pl.owner@ == p
}

pub open spec fn not_own_playlist(id: u64, p: Seq<char>) -> spec_fn(PlaylistView) -> bool {
    |pl: PlaylistView| !(pl.id == id && pl.owner@ == p)
}

pub open spec fn playlist_of(p: Seq<char>) -> spec_fn(PlaylistView) -> bool {
    |pl: PlaylistView| pl.owner@ == p
}

pub open spec fn count_of(p: Seq<char>, track_id: u64) -> spec_fn(PlayDownloadCount) -> bool {
    |c: PlayDownloadCount| c.principal@ == p && c.track_id == track_id
}

pub open spec fn between(a: Seq<char>, b: Seq<char>) -> spec_fn(Message) -> bool {
    |m: Message| (m.from@ == a && m.to@ == b) || (m.from@ == b && m.to@ == a)
}

pub open spec fn message_to(id: u64, p: Seq<char>) -> spec_fn(Message) -> bool {
    |m: Message| m.id == id && m.to@ == p
}

impl Store {
    /// Only the community differs from `o`.
    pub open spec fn only_community_differs(&self, o: &Store) -> bool {
        *self == (Store { community: self.community, ..*o })
    }

    fn find_followed_artists(&self, p: &String) -> (r: Option<usize>)
        ensures
            crate::store::opt_index(r) == first_match(self.community.followed_artists@, artists_of(p@)),
            r matches Some(i) ==> i < self.community.followed_artists@.len(),
    {
        let v = &self.community.followed_artists;
        let mut i: usize = 0;
        while i < v.len()
            invariant
                v == &self.community.followed_artists,
                i <= v@.len(),
                forall|j: int| 0 <= j < i ==> !artists_of(p@)(#[trigger] v@[j]),
            decreases v@.len() - i,
        {
            if v[i].follower == *p {
                proof {
                    crate::store::lemma_first_match_at(v@, artists_of(p@), i as int);
                }
                return Some(i);
            }
            i = i + 1;
        }
        proof {
            lemma_first_match(v@, artists_of(p@));
        }
        None
    }

    fn find_followed_tracks(&self, p: &String) -> (r: Option<usize>)
        ensures
            crate::store::opt_index(r) == first_match(self.community.followed_tracks@, tracks_of(p@)),
            r matches Some(i) ==> i < self.community.followed_tracks@.len(),
    {
        let v = &self.community.followed_tracks;
        let mut i: usize = 0;
        while i < v.len()
            invariant
                v == &self.community.followed_tracks,
                i <= v@.len(),
                forall|j: int| 0 <= j < i ==> !tracks_of(p@)(#[trigger] v@[j]),
            decreases v@.len() - i,
        {
            if v[i].follower == *p {
                proof {
                    crate::store::lemma_first_match_at(v@, tracks_of(p@), i as int);
                }
                return Some(i);
            }
            i = i + 1;
        }
        proof {
            lemma_first_match(v@, tracks_of(p@));
        }
        None
    }

    /// Follows an artist; following twice is the same as once.
    pub fn follow_artist(&mut self, caller: String, artist: String) -> (r: bool)
        ensures
            r,
            final(self).only_community_differs(old(self)),
            final(self).community == (Community {
                followed_artists: final(self).community.followed_artists,
                ..old(self).community
            }),
            ({
                let s = old(self).community.followed_artists@;
                let k = first_match(s, artists_of(caller@));
                views(final(self).community.followed_artists@) == if k >= 0 {
                    views(s).update(
                        k,
                        FollowedArtistsView {
                            artists: if has_text(s[k].artists@, artist@) {
                                s[k].artists@
                            } else {
                                s[k].artists@.push(artist)
                            },
                            ..s[k]@
                        },
                    )
                } else {
                    views(s).push(FollowedArtistsView { follower: caller, artists: seq![artist] })
                }
            }),
    {
        let k = self.find_followed_artists(&caller);
        let ghost s = self.community.followed_artists@;
        match k {
            Some(i) => {
                if !contains_text_entry(&self.community.followed_artists[i].artists, &artist) {
                    let mut artists = self.community.followed_artists[i].artists.clone();
                    artists.push(artist);
                    let follower = self.community.followed_artists[i].follower.clone();
                    let e = FollowedArtists { follower, artists };
                    proof {
                        lemma_views_update(s, i as int, e);
                    }
                    self.community.followed_artists.set(i, e);
                } else {
                    proof {
                        assert(views(s).update(i as int, s[i as int]@) =~= views(s));
                    }
                }
            },
            None => {
                let mut artists: Vec<String> = Vec::new();
                artists.push(artist);
                let e = FollowedArtists { follower: caller, artists };
                proof {
                    lemma_views_push(s, e);
                    assert(e.artists@ =~= seq![artist]);
                }
                self.community.followed_artists.push(e);
            },
        }
        true
    }

    /// Stops following an artist. Fails, changing nothing, when the caller never
    /// followed anyone.
    pub fn unfollow_artist(&mut self, caller: String, artist: String) -> (r: bool)
        ensures
            final(self).only_community_differs(old(self)),
            final(self).community == (Community {
                followed_artists: final(self).community.followed_artists,
                ..old(self).community
            }),
            ({
                let s = old(self).community.followed_artists@;
                let k = first_match(s, artists_of(caller@));
                &&& r == (k >= 0)
                &&& !r ==> final(self).community.followed_artists@ == s
                &&& r ==> views(final(self).community.followed_artists@) == views(s).update(
                    k,
                    FollowedArtistsView { artists: s[k].artists@.filter(not_text(artist@)), ..s[k]@ },
                )
            }),
    {
        let k = self.find_followed_artists(&caller);
        let ghost s = self.community.followed_artists@;
        match k {
            Some(i) => {
                let old_list = &self.community.followed_artists[i].artists;
                let mut kept: Vec<String> = Vec::new();
                let mut j: usize = 0;
                while j < old_list.len()
                    invariant
                        j <= old_list@.len(),
                        kept@ == old_list@.take(j as int).filter(not_text(artist@)),
                    decreases old_list@.len() - j,
                {
                    proof {
                        lemma_filter_step(old_list@, not_text(artist@), j as int);
                    }
                    if old_list[j] != artist {
                        kept.push(old_list[j].clone());
                    }
                    j = j + 1;
                }
                proof {
                    assert(old_list@.take(old_list@.len() as int) =~= old_list@);
                }
                let follower = self.community.followed_artists[i].follower.clone();
                let e = FollowedArtists { follower, artists: kept };
                proof {
                    lemma_views_update(s, i as int, e);
                }
                self.community.followed_artists.set(i, e);
                true
            },
            None => false,
        }
    }

    /// The artists that the caller follows, in the order followed.
    pub fn list_followed_artists(&self, caller: &String) -> (r: Vec<String>)
        ensures
            ({
                let s = self.community.followed_artists@;
                let k = first_match(s, artists_of(caller@));
                r@ == if k >= 0 {
                    s[k].artists@
                } else {
                    Seq::empty()
                }
            }),
    {
        let k = self.find_followed_artists(caller);
        match k {
            Some(i) => self.community.followed_artists[i].artists.clone(),
            None => Vec::new(),
        }
    }

    /// Follows a track; following twice is the same as once.
    pub fn follow_track(&mut self, caller: String, track_id: u64) -> (r: bool)
        ensures
            r,
            final(self).only_community_differs(old(self)),
            final(self).community == (Community {
                followed_tracks: final(self).community.followed_tracks,
                ..old(self).community
            }),
            ({
                let s = old(self).community.followed_tracks@;
                let k = first_match(s, tracks_of(caller@));
                views(final(self).community.followed_tracks@) == if k >= 0 {
                    views(s).update(
                        k,
                        FollowedTracksView {
                            tracks: if s[k].tracks@.contains(track_id) {
                                s[k].tracks@
                            } else {
                                s[k].tracks@.push(track_id)
                            },
                            ..s[k]@
                        },
                    )
                } else {
                    views(s).push(FollowedTracksView { follower: caller, tracks: seq![track_id] })
                }
            }),
    {
        let k = self.find_followed_tracks(&caller);
        let ghost s = self.community.followed_tracks@;
        match k {
            Some(i) => {
                if !contains_id(&self.community.followed_tracks[i].tracks, track_id) {
                    let mut tracks = self.community.followed_tracks[i].tracks.clone();
                    tracks.push(track_id);
                    let follower = self.community.followed_tracks[i].follower.clone();
                    let e = FollowedTracks { follower, tracks };
                    proof {
                        lemma_views_update(s, i as int, e);
                    }
                    self.community.followed_tracks.set(i, e);
                } else {
                    proof {
                        assert(views(s).update(i as int, s[i as int]@) =~= views(s));
                    }
                }
            },
            None => {
                let mut tracks: Vec<u64> = Vec::new();
                tracks.push(track_id);
                let e = FollowedTracks { follower: caller, tracks };
                proof {
                    lemma_views_push(s, e);
                    assert(e.tracks@ =~= seq![track_id]);
                }
                self.community.followed_tracks.push(e);
            },
        }
        true
    }

    /// Stops following a track. Fails, changing nothing, when the caller never
    /// followed any.
    pub fn unfollow_track(&mut self, caller: String, track_id: u64) -> (r: bool)
        ensures
            final(self).only_community_differs(old(self)),
            final(self).community == (Community {
                followed_tracks: final(self).community.followed_tracks,
                ..old(self).community
            }),
            ({
                let s = old(self).community.followed_tracks@;
                let k = first_match(s, tracks_of(caller@));
                &&& r == (k >= 0)
                &&& !r ==> final(self).community.followed_tracks@ == s
                &&& r ==> views(final(self).community.followed_tracks@) == views(s).update(
                    k,
                    FollowedTracksView { tracks: s[k].tracks@.filter(id_is_not(track_id)), ..s[k]@ },
                )
            }),
    {
        let k = self.find_followed_tracks(&caller);
        let ghost s = self.community.followed_tracks@;
        match k {
            Some(i) => {
                let old_list = &self.community.followed_tracks[i].tracks;
                let mut kept: Vec<u64> = Vec::new();
                let mut j: usize = 0;
                while j < old_list.len()
                    invariant
                        j <= old_list@.len(),
                        kept@ == old_list@.take(j as int).filter(id_is_not(track_id)),
                    decreases old_list@.len() - j,
                {
                    proof {
                        lemma_filter_step(old_list@, id_is_not(track_id), j as int);
                    }
                    if old_list[j] != track_id {
                        kept.push(old_list[j]);
                    }
                    j = j + 1;
                }
                proof {
                    assert(old_list@.take(old_list@.len() as int) =~= old_list@);
                }
                let follower = self.community.followed_tracks[i].follower.clone();
                let e = FollowedTracks { follower, tracks: kept };
                proof {
                    lemma_views_update(s, i as int, e);
                }
                self.community.followed_tracks.set(i, e);
                true
            },
            None => false,
        }
    }

    /// The tracks that the caller follows, in the order followed.
    pub fn list_followed_tracks(&self, caller: &String) -> (r: Vec<u64>)
        ensures
            ({
                let s = self.community.followed_tracks@;
                let k = first_match(s, tracks_of(caller@));
                r@ == if k >= 0 {
                    s[k].tracks@
                } else {
                    Seq::empty()
                }
            }),
    {
        let k = self.find_followed_tracks(caller);
        match k {
            Some(i) => self.community.followed_tracks[i].tracks.clone(),
            None => Vec::new(),
        }
    }
    fn find_own_notification(&self, id: u64, p: &String) -> (r: Option<usize>)
        ensures
            crate::store::opt_index(r) == first_match(
                self.community.notifications@,
                own_notification(id, p@),
            ),
            r matches Some(i) ==> i < self.community.notifications@.len(),
    {
        let v = &self.community.notifications;
        let mut i: usize = 0;
        while i < v.len()
            invariant
                v == &self.community.notifications,
                i <= v@.len(),
                forall|j: int| 0 <= j < i ==> !own_notification(id, p@)(#[trigger] v@[j]),
            decreases v@.len() - i,
        {
            if v[i].id == id && v[i].user_principal == *p {
                proof {
                    crate::store::lemma_first_match_at(v@, own_notification(id, p@), i as int);
                }
                return Some(i);
            }
            i = i + 1;
        }
        proof {
            lemma_first_match(v@, own_notification(id, p@));
        }
        None
    }

    /// Sends a notification to a user.
    pub fn send_notification(&mut self, user_principal: String, message: String, now: u64) -> (r:
        Notification)
        requires
            old(self).community.next_notification_id < u64::MAX,
        ensures
            r == (Notification {
                id: old(self).community.next_notification_id,
                user_principal,
                message,
                timestamp: now,
                read: false,
            }),
            final(self).community.notifications@ == old(self).community.notifications@.push(r),
            final(self).community == (Community {
                notifications: final(self).community.notifications,
                next_notification_id: (old(self).community.next_notification_id + 1) as u64,
                ..old(self).community
            }),
            final(self).only_community_differs(old(self)),
    {
        let id = self.community.next_notification_id;
        self.community.next_notification_id = id + 1;
        let n = Notification { id, user_principal, message, timestamp: now, read: false };
        let result = n.clone();
        self.community.notifications.push(n);
        result
    }

    /// The caller's notifications, oldest first.
    pub fn list_notifications(&self, caller: &String) -> (r: Vec<Notification>)
        ensures
            r@ == self.community.notifications@.filter(notification_for(caller@)),
    {
        let v = &self.community.notifications;
        let mut r: Vec<Notification> = Vec::new();
        let mut i: usize = 0;
        while i < v.len()
            invariant
                i <= v@.len(),
                r@ == v@.take(i as int).filter(notification_for(caller@)),
            decreases v@.len() - i,
        {
            proof {
                lemma_filter_step(v@, notification_for(caller@), i as int);
            }
            if v[i].user_principal == *caller {
                r.push(v[i].clone());
            }
            i = i + 1;
        }
        proof {
            assert(v@.take(v@.len() as int) =~= v@);
        }
        r
    }

    /// Marks one of the caller's notifications as read. Fails, changing nothing,
    /// when the caller has no notification with this id.
    pub fn mark_notification_read(&mut self, caller: String, notification_id: u64) -> (r: bool)
        ensures
            ({
                let s = old(self).community.notifications@;
                let k = first_match(s, own_notification(notification_id, caller@));
                &&& r == (k >= 0)
                &&& !r ==> *final(self) == *old(self)
                &&& r ==> final(self).community.notifications@ == s.update(
                    k,
                    Notification { read: true, ..s[k] },
                )
            }),
            final(self).community == (Community {
                notifications: final(self).community.notifications,
                ..old(self).community
            }),
            final(self).only_community_differs(old(self)),
    {
        match self.find_own_notification(notification_id, &caller) {
            Some(i) => {
                let mut n = self.community.notifications[i].clone();
                n.read = true;
                self.community.notifications.set(i, n);
                true
            },
            None => false,
        }
    }

    fn find_playlist(&self, id: u64, owner: Option<&String>) -> (r: Option<usize>)
        ensures
            crate::store::opt_index(r) == first_match(
                self.community.playlists@,
                match owner {
                    Some(p) => own_playlist(id, p@),
                    None => playlist_is(id),
                },
            ),
            r matches Some(i) ==> i < self.community.playlists@.len(),
    {
        let ghost pred = match owner {
            Some(p) => own_playlist(id, p@),
            None => playlist_is(id),
        };
        let v = &self.community.playlists;
        let mut i: usize = 0;
        while i < v.len()
            invariant
                v == &self.community.playlists,
                i <= v@.len(),
                pred == (match owner {
                    Some(p) => own_playlist(id, p@),
                    None => playlist_is(id),
                }),
                forall|j: int| 0 <= j < i ==> !pred(#[trigger] v@[j]),
            decreases v@.len() - i,
        {
            let hit = v[i].id == id && match owner {
                Some(p) => v[i].owner == *p,
                None => true,
            };
            if hit {
                proof {
                    crate::store::lemma_first_match_at(v@, pred, i as int);
                }
                return Some(i);
            }
            i = i + 1;
        }
        proof {
            lemma_first_match(v@, pred);
        }
        None
    }

    /// Creates a playlist owned by the caller. Fails, changing nothing, when the
    /// name is blank.
    pub fn create_playlist(
        &mut self,
        caller: String,
        name: String,
        description: Option<String>,
        track_ids: Vec<u64>,
        now: u64,
    ) -> (r: Option<Playlist>)
        requires
            old(self).community.next_playlist_id < u64::MAX,
        ensures
            r is None <==> blank(name@),
            r is None ==> *final(self) == *old(self),
            r matches Some(p) ==> {
                &&& p@ == PlaylistView {
                    id: old(self).community.next_playlist_id,
                    owner: caller,
                    name,
                    description,
                    track_ids: track_ids@,
                    created_at: now,
                    updated_at: now,
                }
                &&& views(final(self).community.playlists@) == views(
                    old(self).community.playlists@,
                ).push(p@)
                &&& final(self).community == (Community {
                    playlists: final(self).community.playlists,
                    next_playlist_id: (old(self).community.next_playlist_id + 1) as u64,
                    ..old(self).community
                })
                &&& final(self).only_community_differs(old(self))
            },
    {
        if is_blank(name.as_str()) {
            return None;
        }
        let id = self.community.next_playlist_id;
        self.community.next_playlist_id = id + 1;
        let p = Playlist {
            id,
            owner: caller,
            name,
            description,
            track_ids,
            created_at: now,
            updated_at: now,
        };
        let result = p.clone();
        proof {
            lemma_views_push(self.community.playlists@, p);
        }
        self.community.playlists.push(p);
        Some(result)
    }

    /// Replaces the name, description and tracks of one of the caller's
    /// playlists. Fails, changing nothing, when the caller owns no playlist with
    /// this id.
    pub fn update_playlist(
        &mut self,
        caller: String,
        playlist_id: u64,
        name: String,
        description: Option<String>,
        track_ids: Vec<u64>,
        now: u64,
    ) -> (r: Option<Playlist>)
        ensures
            ({
                let s = old(self).community.playlists@;
                let k = first_match(s, own_playlist(playlist_id, caller@));
                &&& r is Some <==> k >= 0
                &&& r is None ==> *final(self) == *old(self)
                &&& r matches Some(p) ==> {
                    &&& p@ == PlaylistView {
                        name,
                        description,
                        track_ids: track_ids@,
                        updated_at: now,
                        ..s[k]@
                    }
                    &&& views(final(self).community.playlists@) == views(s).update(k, p@)
                }
            }),
            final(self).community == (Community {
                playlists: final(self).community.playlists,
                ..old(self).community
            }),
            final(self).only_community_differs(old(self)),
    {
        let i = match self.find_playlist(playlist_id, Some(&caller)) {
            Some(i) => i,
            None => {
                return None;
            },
        };
        let mut p = self.community.playlists[i].clone();
        p.name = name;
        p.description = description;
        p.track_ids = track_ids;
        p.updated_at = now;
        let result = p.clone();
        proof {
            lemma_views_update(self.community.playlists@, i as int, p);
        }
        self.community.playlists.set(i, p);
        Some(result)
    }

    /// Deletes the caller's playlists with this id. Says whether there was one.
    pub fn delete_playlist(&mut self, caller: String, playlist_id: u64) -> (r: bool)
        ensures
            r == (first_match(old(self).community.playlists@, own_playlist(playlist_id, caller@))
                >= 0),
            views(final(self).community.playlists@) == views(old(self).community.playlists@).filter(
                not_own_playlist(playlist_id, caller@),
            ),
            final(self).community == (Community {
                playlists: final(self).community.playlists,
                ..old(self).community
            }),
            final(self).only_community_differs(old(self)),
    {
        let v = &self.community.playlists;
        let ghost s = views(v@);
        let mut kept: Vec<Playlist> = Vec::new();
        let mut removed = false;
        let mut i: usize = 0;
        while i < v.len()
            invariant
                v == &old(self).community.playlists,
                s == views(v@),
                i <= v@.len(),
                views(kept@) == s.take(i as int).filter(not_own_playlist(playlist_id, caller@)),
                removed == exists|j: int| 0 <= j < i && own_playlist(playlist_id, caller@)(#[trigger] v@[j]),
            decreases v@.len() - i,
        {
            proof {
                lemma_filter_step(s, not_own_playlist(playlist_id, caller@), i as int);
            }
            if !(v[i].id == playlist_id && v[i].owner == caller) {
                let c = v[i].clone();
                proof {
                    lemma_views_push(kept@, c);
                }
                kept.push(c);
            } else {
                removed = true;
            }
            i = i + 1;
        }
        proof {
            assert(s.take(s.len() as int) =~= s);
            lemma_first_match(v@, own_playlist(playlist_id, caller@));
        }
        self.community.playlists = kept;
        removed
    }

    /// The caller's playlists, oldest first.
    pub fn list_playlists(&self, caller: &String) -> (r: Vec<Playlist>)
        ensures
            views(r@) == views(self.community.playlists@).filter(playlist_of(caller@)),
    {
        let v = &self.community.playlists;
        let ghost s = views(v@);
        let mut r: Vec<Playlist> = Vec::new();
        let mut i: usize = 0;
        while i < v.len()
            invariant
                s == views(v@),
                i <= v@.len(),
                views(r@) == s.take(i as int).filter(playlist_of(caller@)),
            decreases v@.len() - i,
        {
            proof {
                lemma_filter_step(s, playlist_of(caller@), i as int);
            }
            if v[i].owner == *caller {
                let c = v[i].clone();
                proof {
                    lemma_views_push(r@, c);
                }
                r.push(c);
            }
            i = i + 1;
        }
        proof {
            assert(s.take(s.len() as int) =~= s);
        }
        r
    }

    /// The playlist with this id, whoever owns it.
    pub fn get_playlist(&self, playlist_id: u64) -> (r: Option<Playlist>)
        ensures
            ({
                let s = self.community.playlists@;
                let k = first_match(s, playlist_is(playlist_id));
                match r {
                    Some(p) => k >= 0 && p@ == s[k]@,
                    None => k == -1,
                }
            }),
    {
        match self.find_playlist(playlist_id, None) {
            Some(i) => Some(self.community.playlists[i].clone()),
            None => None,
        }
    }
    fn find_count(&self, p: &String, track_id: u64) -> (r: Option<usize>)
        ensures
            crate::store::opt_index(r) == first_match(self.community.play_counts@, count_of(p@, track_id)),
            r matches Some(i) ==> i < self.community.play_counts@.len(),
    {
        let v = &self.community.play_counts;
        let mut i: usize = 0;
        while i < v.len()
            invariant
                v == &self.community.play_counts,
                i <= v@.len(),
                forall|j: int| 0 <= j < i ==> !count_of(p@, track_id)(#[trigger] v@[j]),
            decreases v@.len() - i,
        {
            if v[i].principal == *p && v[i].track_id == track_id {
                proof {
                    crate::store::lemma_first_match_at(v@, count_of(p@, track_id), i as int);
                }
                return Some(i);
            }
            i = i + 1;
        }
        proof {
            lemma_first_match(v@, count_of(p@, track_id));
        }
        None
    }

    /// Counts one more play of a track by the caller.
    pub fn record_play(&mut self, caller: String, track_id: u64) -> (r: bool)
        requires
            ({
                let s = old(self).community.play_counts@;
                let k = first_match(s, count_of(caller@, track_id));
                k >= 0 ==> s[k].play_count < u64::MAX
            }),
        ensures
            r,
            ({
                let s = old(self).community.play_counts@;
                let k = first_match(s, count_of(caller@, track_id));
                final(self).community.play_counts@ == if k >= 0 {
                    s.update(k, PlayDownloadCount { play_count: (s[k].play_count + 1) as u64, ..s[k] })
                } else {
                    s.push(
                        PlayDownloadCount {
                            principal: caller,
                            track_id,
                            play_count: 1,
                            download_count: 0,
                        },
                    )
                }
            }),
            final(self).community == (Community {
                play_counts: final(self).community.play_counts,
                ..old(self).community
            }),
            final(self).only_community_differs(old(self)),
    {
        match self.find_count(&caller, track_id) {
            Some(i) => {
                let mut c = self.community.play_counts[i].clone();
                c.play_count = c.play_count + 1;
                self.community.play_counts.set(i, c);
            },
            None => {
                self.community.play_counts.push(
                    PlayDownloadCount { principal: caller, track_id, play_count: 1, download_count: 0 },
                );
            },
        }
        true
    }

    /// Counts one more download of a track by the caller.
    pub fn record_download(&mut self, caller: String, track_id: u64) -> (r: bool)
        requires
            ({
                let s = old(self).community.play_counts@;
                let k = first_match(s, count_of(caller@, track_id));
                k >= 0 ==> s[k].download_count < u64::MAX
            }),
        ensures
            r,
            ({
                let s = old(self).community.play_counts@;
                let k = first_match(s, count_of(caller@, track_id));
                final(self).community.play_counts@ == if k >= 0 {
                    s.update(
                        k,
                        PlayDownloadCount { download_count: (s[k].download_count + 1) as u64, ..s[k] },
                    )
                } else {
                    s.push(
                        PlayDownloadCount {
                            principal: caller,
                            track_id,
                            play_count: 0,
                            download_count: 1,
                        },
                    )
                }
            }),
            final(self).community == (Community {
                play_counts: final(self).community.play_counts,
                ..old(self).community
            }),
            final(self).only_community_differs(old(self)),
    {
        match self.find_count(&caller, track_id) {
            Some(i) => {
                let mut c = self.community.play_counts[i].clone();
                c.download_count = c.download_count + 1;
                self.community.play_counts.set(i, c);
            },
            None => {
                self.community.play_counts.push(
                    PlayDownloadCount { principal: caller, track_id, play_count: 0, download_count: 1 },
                );
            },
        }
        true
    }

    /// How often the caller played a track.
    pub fn get_user_play_count(&self, caller: &String, track_id: u64) -> (r: u64)
        ensures
            ({
                let s = self.community.play_counts@;
                let k = first_match(s, count_of(caller@, track_id));
                r == if k >= 0 {
                    s[k].play_count
                } else {
                    0
                }
            }),
    {
        match self.find_count(caller, track_id) {
            Some(i) => self.community.play_counts[i].play_count,
            None => 0,
        }
    }

    /// How often the caller downloaded a track.
    pub fn get_user_download_count(&self, caller: &String, track_id: u64) -> (r: u64)
        ensures
            ({
                let s = self.community.play_counts@;
                let k = first_match(s, count_of(caller@, track_id));
                r == if k >= 0 {
                    s[k].download_count
                } else {
                    0
                }
            }),
    {
        match self.find_count(caller, track_id) {
            Some(i) => self.community.play_counts[i].download_count,
            None => 0,
        }
    }

    /// Sends a message from the caller. Fails, changing nothing, when the content
    /// is blank.
    pub fn send_message(&mut self, caller: String, to: String, content: String, now: u64) -> (r:
        Option<Message>)
        requires
            old(self).community.next_message_id < u64::MAX,
        ensures
            r is None <==> blank(content@),
            r is None ==> *final(self) == *old(self),
            r matches Some(m) ==> {
                &&& m == Message {
                    id: old(self).community.next_message_id,
                    from: caller,
                    to,
                    content,
                    timestamp: now,
                    read: false,
                }
                &&& final(self).community.messages@ == old(self).community.messages@.push(m)
                &&& final(self).community == (Community {
                    messages: final(self).community.messages,
                    next_message_id: (old(self).community.next_message_id + 1) as u64,
                    ..old(self).community
                })
                &&& final(self).only_community_differs(old(self))
            },
    {
        if is_blank(content.as_str()) {
            return None;
        }
        let id = self.community.next_message_id;
        self.community.next_message_id = id + 1;
        let m = Message { id, from: caller, to, content, timestamp: now, read: false };
        let result = m.clone();
        self.community.messages.push(m);
        Some(result)
    }

    /// The messages between the caller and another user, oldest first.
    pub fn list_messages_with(&self, caller: &String, user: &String) -> (r: Vec<Message>)
        ensures
            r@ == self.community.messages@.filter(between(caller@, user@)),
    {
        let v = &self.community.messages;
        let mut r: Vec<Message> = Vec::new();
        let mut i: usize = 0;
        while i < v.len()
            invariant
                i <= v@.len(),
                r@ == v@.take(i as int).filter(between(caller@, user@)),
            decreases v@.len() - i,
        {
            proof {
                lemma_filter_step(v@, between(caller@, user@), i as int);
            }
            let m = &v[i];
            if (m.from == *caller && m.to == *user) || (m.from == *user && m.to == *caller) {
                r.push(m.clone());
            }
            i = i + 1;
        }
        proof {
            assert(v@.take(v@.len() as int) =~= v@);
        }
        r
    }

    fn find_message_to(&self, id: u64, p: &String) -> (r: Option<usize>)
        ensures
            crate::store::opt_index(r) == first_match(self.community.messages@, message_to(id, p@)),
            r matches Some(i) ==> i < self.community.messages@.len(),
    {
        let v = &self.community.messages;
        let mut i: usize = 0;
        while i < v.len()
            invariant
                v == &self.community.messages,
                i <= v@.len(),
                forall|j: int| 0 <= j < i ==> !message_to(id, p@)(#[trigger] v@[j]),
            decreases v@.len() - i,
        {
            if v[i].id == id && v[i].to == *p {
                proof {
                    crate::store::lemma_first_match_at(v@, message_to(id, p@), i as int);
                }
                return Some(i);
            }
            i = i + 1;
        }
        proof {
            lemma_first_match(v@, message_to(id, p@));
        }
        None
    }

    /// Marks a message to the caller as read. Fails, changing nothing, when the
    /// caller received no message with this id.
    pub fn mark_message_read(&mut self, caller: String, message_id: u64) -> (r: bool)
        ensures
            ({
                let s = old(self).community.messages@;
                let k = first_match(s, message_to(message_id, caller@));
                &&& r == (k >= 0)
                &&& !r ==> *final(self) == *old(self)
                &&& r ==> final(self).community.messages@ == s.update(k, Message { read: true, ..s[k] })
            }),
            final(self).community == (Community {
                messages: final(self).community.messages,
                ..old(self).community
            }),
            final(self).only_community_differs(old(self)),
    {
        match self.find_message_to(message_id, &caller) {
            Some(i) => {
                let mut m = self.community.messages[i].clone();
                m.read = true;
                self.community.messages.set(i, m);
                true
            },
            None => false,
        }
    }
}

} // verus!
