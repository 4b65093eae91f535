use vstd::prelude::*;
use vstd::string::StringExecFns;
use crate::activity::is_activity;
use crate::store::{
    lemma_first_match, lemma_first_match_at, lemma_first_match_push, lemma_views_push, lemma_views_update,
    track_has_id, history_has_id, views, HistoryView, Store, VersionHistory,
};
use crate::text::{blank, decimal, is_blank, join3, to_decimal};
use crate::types::{
    Track, TrackRole, TrackVersion, TrackVersionView, TrackView, TrackVisibility,
};

verus! {

/// Every contributor of a new track is one of its owners.
pub open spec fn owner_roles(contributors: Seq<u64>) -> Seq<(u64, TrackRole)> {
    contributors.map_values(|c: u64| (c, TrackRole::Owner))
}

/// A track as it stands right after creation.
pub open spec fn new_track(
    id: u64,
    title: String,
    description: String,
    contributors: Seq<u64>,
) -> TrackView {
    TrackView {
        id,
        title,
        description,
        contributors,
        version: 1,
        splits: None,
        comments: Seq::empty(),
        payments: Seq::empty(),
        visibility: TrackVisibility::Public,
        invited: Seq::empty(),
        roles: owner_roles(contributors),
        ratings: Seq::empty(),
        tags: Seq::empty(),
        genre: None,
        play_count: 0,
        downloadable: true,
    }
}

/// The details logged for the creation of track `id`.
pub open spec fn created_details(id: u64) -> Seq<char> {
    "Track "@ + decimal(id as nat) + " created"@
}

impl Store {
    /// Creates a track owned by its contributors and records its first version.
    /// Fails when the title or the description is blank or there is no contributor.
    pub fn create_track(
        &mut self,
        title: String,
        description: String,
        contributors: Vec<u64>,
        now: u64,
    ) -> (r: Option<Track>)
        requires
            old(self).wf(),
            old(self).next_track_id < u64::MAX,
        ensures
            final(self).wf(),
            r is None <==> (blank(title@) || blank(description@) || contributors@.len() == 0),
            r is None ==> *final(self) == *old(self),
            r matches Some(t) ==> {
                let id = old(self).next_track_id;
                &&& t@ == new_track(id, title, description, contributors@)
                &&& final(self).tracks_view() == old(self).tracks_view().push(t@)
                &&& final(self).next_track_id == id + 1
                &&& final(self).track_versions@.drop_last() == old(self).track_versions@
                &&& final(self).track_versions@.last().track_id == id
                &&& views(final(self).track_versions@.last().versions@) == seq![
                    TrackVersionView { version: 1, title, description, contributors: contributors@ },
                ]
                &&& final(self).track_at(id) == Some(t@)
                &&& final(self).versions_of(id) == seq![
                    TrackVersionView { version: 1, title, description, contributors: contributors@ },
                ]
                &&& forall|o: u64|
                    o != id ==> #[trigger] final(self).versions_of(o) == old(self).versions_of(o)
                &&& final(self).activity_log@.len() == old(self).activity_log@.len()
                    + contributors@.len()
                &&& final(self).activity_log@.take(old(self).activity_log@.len() as int)
                    == old(self).activity_log@
                &&& forall|k: int|
                    0 <= k < contributors@.len() ==> is_activity(
                        #[trigger] final(self).activity_log@[old(self).activity_log@.len() + k],
                        contributors@[k],
                        "create_track"@,
                        now,
                        created_details(id),
                    )
                &&& final(self).same_artists(old(self))
                &&& final(self).same_user_log(old(self))
                &&& final(self).same_requests(old(self))
                &&& final(self).same_tasks(old(self))
                &&& final(self).community == old(self).community
            },
    {
        if is_blank(title.as_str()) || is_blank(description.as_str()) || contributors.len() == 0 {
            return None;
        }
        let id = self.next_track_id;
        let mut roles: Vec<(u64, TrackRole)> = Vec::new();
        let mut i: usize = 0;
        while i < contributors.len()
            invariant
                i <= contributors@.len(),
                roles@ == owner_roles(contributors@.take(i as int)),
            decreases contributors@.len() - i,
        {
            roles.push((contributors[i], TrackRole::Owner));
            i = i + 1;
            proof {
                assert(roles@ =~= owner_roles(contributors@.take(i as int)));
            }
        }
        proof {
            assert(contributors@.take(contributors@.len() as int) =~= contributors@);
        }
        let track = Track {
            id,
            title: title.clone(),
            description: description.clone(),
            contributors: contributors.clone(),
            version: 1,
            splits: None,
            comments: Vec::new(),
            payments: Vec::new(),
            visibility: TrackVisibility::Public,
            invited: Vec::new(),
            roles,
            ratings: Vec::new(),
            tags: Vec::new(),
            genre: None,
            play_count: 0,
            downloadable: true,
        };
        let result = track.clone();
        proof {
            lemma_views_push(self.tracks@, track);
        }
        self.tracks.push(track);
        let first = TrackVersion {
            version: 1,
            title: title,
            description: description,
            contributors: contributors.clone(),
        };
        let mut versions: Vec<TrackVersion> = Vec::new();
        versions.push(first);
        proof {
            assert(views(versions@) =~= seq![versions@[0]@]);
        }
        self.track_versions.push(VersionHistory { track_id: id, versions });
        proof {
            assert(self.track_versions@.drop_last() =~= old(self).track_versions@);
        }
        let ghost tracks1 = self.tracks;
        let ghost versions1 = self.track_versions;
        let number = to_decimal(id);
        let details = join3("Track ", number.as_str(), " created");
        let ghost log0 = self.activity_log@;
        let mut k: usize = 0;
        while k < contributors.len()
            invariant
                k <= contributors@.len(),
                self.activity_log@.len() == log0.len() + k,
                self.activity_log@.take(log0.len() as int) == log0,
                forall|j: int|
                    0 <= j < k ==> is_activity(
                        #[trigger] self.activity_log@[log0.len() + j],
                        contributors@[j],
                        "create_track"@,
                        now,
                        created_details(id),
                    ),
                details@ == created_details(id),
                self.tracks == tracks1,
                self.track_versions == versions1,
                self.same_artists(old(self)),
                self.same_user_log(old(self)),
                self.same_requests(old(self)),
                self.same_tasks(old(self)),
                self.community == old(self).community,
                self.next_track_id == id,
            decreases contributors@.len() - k,
        {
            let ghost before = self.activity_log@;
            self.log_activity(contributors[k], "create_track", now, details.as_str());
            proof {
                assert(self.activity_log@.drop_last() == before);
                assert(self.activity_log@.take(log0.len() as int) =~= log0);
                assert forall|j: int| 0 <= j < k + 1 implies is_activity(
                    #[trigger] self.activity_log@[log0.len() + j],
                    contributors@[j],
                    "create_track"@,
                    now,
                    created_details(id),
                ) by {
                    if j < k {
                        assert(self.activity_log@[log0.len() + j] == before[log0.len() + j]);
                    }
                }
            }
            k = k + 1;
        }
        self.next_track_id = id + 1;
        proof {
            let n = old(self).tracks@.len();
            assert forall|j: int| 0 <= j < n implies !track_has_id(id)(#[trigger] self.tracks@[j]) by {
                assert(self.tracks@[j] == old(self).tracks@[j]);
            }
            lemma_first_match_at(self.tracks@, track_has_id(id), n as int);
            let hb = views(old(self).track_versions@);
            let ha = views(self.track_versions@);
            assert(ha =~= hb.push(self.track_versions@.last()@));
            assert forall|j: int| 0 <= j < hb.len() implies !history_has_id(id)(#[trigger] hb[j]) by {
                assert(old(self).track_versions@[j].track_id < id);
            }
            lemma_first_match(hb, history_has_id(id));
            lemma_first_match_push(hb, self.track_versions@.last()@, history_has_id(id));
            assert forall|o: u64| o != id implies #[trigger] self.versions_of(o)
                == old(self).versions_of(o) by {
                lemma_first_match_push(hb, self.track_versions@.last()@, history_has_id(o));
                lemma_first_match(hb, history_has_id(o));
            }
        }
        Some(result)
    }

    /// The track with this id.
    pub fn get_track(&self, id: u64) -> (r: Option<Track>)
        ensures
            match r {
                Some(t) => self.track_at(id) == Some(t@),
                None => self.track_at(id) is None,
            },
    {
        match self.find_track(id) {
            Some(i) => Some(self.tracks[i].clone()),
            None => None,
        }
    }

    /// All tracks, in the order they were created.
    pub fn list_tracks(&self) -> (r: Vec<Track>)
        ensures
            views(r@) == self.tracks_view(),
    {
        let r = self.tracks.clone();
        proof {
            assert(views(r@) =~= self.tracks_view());
        }
        r
    }

    /// Overwrites the title, description, contributors and version of a track,
    /// without recording a version. Fails when the track is unknown.
    pub fn update_track(
        &mut self,
        id: u64,
        title: String,
        description: String,
        contributors: Vec<u64>,
        version: u32,
    ) -> (r: Option<Track>)
        requires
            old(self).wf(),
        ensures
            final(self).wf(),
            r is Some <==> old(self).track_index(id) >= 0,
            final(self).only_tracks_differ(old(self)),
            r is None ==> final(self).tracks == old(self).tracks,
            r matches Some(t) ==> {
                let k = old(self).track_index(id);
                &&& t@ == TrackView {
                    title,
                    description,
                    contributors: contributors@,
                    version,
                    ..old(self).tracks_view()[k]
                }
                &&& final(self).tracks_view() == old(self).tracks_view().update(k, t@)
            },
    {
        match self.find_track(id) {
            Some(i) => {
                proof {
                    lemma_first_match(self.tracks@, track_has_id(id));
                }
                let mut t = self.tracks[i].clone();
                t.title = title;
                t.description = description;
                t.contributors = contributors;
                t.version = version;
                let result = t.clone();
                proof {
                    lemma_views_update(self.tracks@, i as int, t);
                }
                self.tracks.set(i, t);
                Some(result)
            },
            None => None,
        }
    }

    /// Records a new version of a track: the version number goes up by one, the
    /// track takes the new title, description and contributors, and a snapshot
    /// carrying the new number joins the track's history. Fails when the track is
    /// unknown.
    pub fn add_track_version(
        &mut self,
        track_id: u64,
        title: String,
        description: String,
        contributors: Vec<u64>,
    ) -> (r: Option<TrackVersion>)
        requires
            old(self).wf(),
            old(self).track_index(track_id) >= 0 ==> old(self).tracks@[old(self).track_index(
                track_id,
            )].version < u32::MAX,
        ensures
            final(self).wf(),
            r is Some <==> old(self).track_index(track_id) >= 0,
            r is None ==> *final(self) == *old(self),
            r matches Some(v) ==> {
                let k = old(self).track_index(track_id);
                let t = old(self).tracks_view()[k];
                &&& v@ == TrackVersionView {
                    version: (t.version + 1) as u32,
                    title,
                    description,
                    contributors: contributors@,
                }
                &&& final(self).tracks_view() == old(self).tracks_view().update(
                    k,
                    TrackView {
                        version: (t.version + 1) as u32,
                        title,
                        description,
                        contributors: contributors@,
                        ..t
                    },
                )
                &&& final(self).versions_of(track_id) == old(self).versions_of(track_id).push(v@)
                &&& forall|o: u64|
                    o != track_id ==> #[trigger] final(self).versions_of(o) == old(self).versions_of(o)
                &&& final(self).same_artists(old(self))
                &&& final(self).next_track_id == old(self).next_track_id
                &&& final(self).same_log(old(self))
                &&& final(self).same_user_log(old(self))
                &&& final(self).same_requests(old(self))
                &&& final(self).same_tasks(old(self))
                &&& final(self).community == old(self).community
            },
    {
        let i = match self.find_track(track_id) {
            Some(i) => i,
            None => {
                return None;
            },
        };
        proof {
            lemma_first_match(self.tracks@, track_has_id(track_id));
        }
        let mut t = self.tracks[i].clone();
        let new_version = t.version + 1;
        t.version = new_version;
        t.title = title.clone();
        t.description = description.clone();
        t.contributors = contributors.clone();
        proof {
            lemma_views_update(self.tracks@, i as int, t);
        }
        self.tracks.set(i, t);
        let version = TrackVersion { version: new_version, title, description, contributors };
        let result = version.clone();
        let ghost before = self.track_versions@;
        match self.find_history(track_id) {
            Some(h) => {
                let mut versions = self.track_versions[h].versions.clone();
                proof {
                    lemma_views_push(versions@, version);
                    assert(views(versions@) =~= views(before[h as int].versions@));
                }
                versions.push(version);
                let entry = VersionHistory { track_id, versions };
                proof {
                    lemma_views_update(before, h as int, entry);
                }
                self.track_versions.set(h, entry);
                proof {
                    let after = views(self.track_versions@);
                    let before = views(before);
                    assert forall|o: u64| #[trigger] self.history_index(o) == old(self).history_index(o) by {
                        crate::store::lemma_first_match_same(after, before, history_has_id(o));
                    }
                    assert forall|o: u64| o != track_id implies #[trigger] self.versions_of(o)
                        == old(self).versions_of(o) by {
                        lemma_first_match(before, history_has_id(o));
                    }
                }
            },
            None => {
                let mut versions: Vec<TrackVersion> = Vec::new();
                versions.push(version);
                proof {
                    assert(views(versions@) =~= seq![result@]);
                    assert(old(self).versions_of(track_id).push(result@) =~= seq![result@]);
                }
                let entry = VersionHistory { track_id, versions };
                proof {
                    lemma_views_push(before, entry);
                }
                self.track_versions.push(entry);
                proof {
                    let after = views(self.track_versions@);
                    let before = views(before);
                    assert(after.drop_last() =~= before);
                    lemma_first_match_push(before, after.last(), history_has_id(track_id));
                    assert forall|o: u64| o != track_id implies #[trigger] self.versions_of(o)
                        == old(self).versions_of(o) by {
                        lemma_first_match_push(before, after.last(), history_has_id(o));
                        lemma_first_match(before, history_has_id(o));
                    }
                }
            },
        }
        Some(result)
    }

    /// The versions of a track, oldest first; empty for an unknown track.
    pub fn get_track_versions(&self, track_id: u64) -> (r: Vec<TrackVersion>)
        ensures
            views(r@) == self.versions_of(track_id),
    {
        match self.find_history(track_id) {
            Some(h) => {
                let r = self.track_versions[h].versions.clone();
                proof {
                    assert(views(r@) =~= self.versions_of(track_id));
                }
                r
            },
            None => Vec::new(),
        }
    }

    /// Removes every track with this id. Says whether there was one.
    pub(crate) fn drop_tracks_with_id(&mut self, track_id: u64) -> (r: bool)
        requires
            old(self).wf(),
        ensures
            final(self).wf(),
            r == (old(self).track_index(track_id) >= 0),
            final(self).tracks_view() == old(self).tracks_view().filter(view_id_is_not(track_id)),
            final(self).track_at(track_id) is None,
            final(self).only_tracks_differ(old(self)),
    {
        let ghost s = self.tracks_view();
        let mut kept: Vec<Track> = Vec::new();
        let mut removed = false;
        let mut i: usize = 0;
        while i < self.tracks.len()
            invariant
                s == self.tracks_view(),
                *self == *old(self),
                self.wf(),
                i <= self.tracks@.len(),
                views(kept@) == s.take(i as int).filter(view_id_is_not(track_id)),
                forall|j: int| 0 <= j < kept@.len() ==> #[trigger] kept@[j].id < self.next_track_id,
                removed == exists|j: int| 0 <= j < i && #[trigger] self.tracks@[j].id == track_id,
            decreases self.tracks@.len() - i,
        {
            proof {
                crate::store::lemma_filter_step(s, view_id_is_not(track_id), i as int);
            }
            if self.tracks[i].id != track_id {
                let c = self.tracks[i].clone();
                proof {
                    lemma_views_push(kept@, c);
                }
                kept.push(c);
            } else {
                removed = true;
            }
            i = i + 1;
        }
        proof {
            assert(s.take(s.len() as int) =~= s);
            lemma_first_match(self.tracks@, track_has_id(track_id));
            if removed {
                let j = choose|j: int| 0 <= j < i && #[trigger] self.tracks@[j].id == track_id;
                assert(track_has_id(track_id)(self.tracks@[j]));
            }
        }
        self.tracks = kept;
        proof {
            let tv = self.tracks_view();
            assert forall|j: int| 0 <= j < tv.len() implies #[trigger] tv[j].id != track_id by {
                s.lemma_filter_pred(view_id_is_not(track_id), j);
            }
            assert forall|j: int| 0 <= j < tv.len() implies !track_has_id(track_id)(
                #[trigger] self.tracks@[j],
            ) by {
                assert(tv[j] == self.tracks@[j]@);
            }
            lemma_first_match(self.tracks@, track_has_id(track_id));
        }
        removed
    }

    /// Removes a track and its history of versions. Says whether a track was removed.
    pub fn delete_track(&mut self, track_id: u64) -> (r: bool)
        requires
            old(self).wf(),
        ensures
            final(self).wf(),
            r == (old(self).track_index(track_id) >= 0),
            final(self).tracks_view() == old(self).tracks_view().filter(view_id_is_not(track_id)),
            views(final(self).track_versions@) == views(old(self).track_versions@).filter(
                history_is_not(track_id),
            ),
            forall|o: u64|
                o != track_id ==> #[trigger] final(self).versions_of(o) == old(self).versions_of(o),
            final(self).track_at(track_id) is None,
            final(self).versions_of(track_id) == Seq::<TrackVersionView>::empty(),
            final(self).same_artists(old(self)),
            final(self).next_track_id == old(self).next_track_id,
            final(self).same_log(old(self)),
            final(self).same_user_log(old(self)),
            final(self).same_requests(old(self)),
            final(self).same_tasks(old(self)),
            final(self).community == old(self).community,
    {
        let removed = self.drop_tracks_with_id(track_id);
        let ghost hs = views(self.track_versions@);
        let mut kept_h: Vec<VersionHistory> = Vec::new();
        let mut h: usize = 0;
        while h < self.track_versions.len()
            invariant
                hs == views(self.track_versions@),
                h <= hs.len(),
                self.track_versions == old(self).track_versions,
                self.next_track_id == old(self).next_track_id,
                forall|j: int|
                    0 <= j < self.track_versions@.len() ==> #[trigger] self.track_versions@[j].track_id
                        < self.next_track_id,
                views(kept_h@) == hs.take(h as int).filter(history_is_not(track_id)),
                forall|j: int|
                    0 <= j < kept_h@.len() ==> #[trigger] kept_h@[j].track_id < self.next_track_id,
            decreases hs.len() - h,
        {
            proof {
                crate::store::lemma_filter_step(hs, history_is_not(track_id), h as int);
            }
            if self.track_versions[h].track_id != track_id {
                let v = self.track_versions[h].clone();
                proof {
                    lemma_views_push(kept_h@, v);
                }
                kept_h.push(v);
            }
            h = h + 1;
        }
        proof {
            assert(hs.take(hs.len() as int) =~= hs);
        }
        self.track_versions = kept_h;
        proof {
            let fh = views(self.track_versions@);
            assert forall|j: int| 0 <= j < fh.len() implies #[trigger] fh[j].track_id != track_id by {
                hs.lemma_filter_pred(history_is_not(track_id), j);
            }
            lemma_first_match(fh, history_has_id(track_id));
            assert forall|o: u64| o != track_id implies #[trigger] self.versions_of(o)
                == old(self).versions_of(o) by {
                crate::store::lemma_first_match_filter(
                    hs,
                    history_has_id(o),
                    history_is_not(track_id),
                );
            }
        }
        removed
    }
}

pub open spec fn view_id_is_not(id: u64) -> spec_fn(TrackView) -> bool {
    |t: TrackView| t.id != id
}

pub open spec fn history_is_not(id: u64) -> spec_fn(HistoryView) -> bool {
    |h: HistoryView| h.track_id != id
}

} // verus!
