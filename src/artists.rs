use vstd::prelude::*;
use crate::activity::user_logged_once;
use crate::store::{artist_has_id, lemma_first_match, lemma_views_push, lemma_views_update, views, Store};
use crate::text::{blank, is_blank, join2};
use crate::types::{opt_seq, Artist, ArtistView};

verus! {

impl Store {
    /// The artist with this id, if there is one.
    pub open spec fn artist_at(&self, id: u64) -> Option<ArtistView> {
        if self.artist_index(id) >= 0 {
            Some(self.artists@[self.artist_index(id)]@)
        } else {
            None
        }
    }

    /// Registers an artist for a principal with a fresh id and an empty balance,
    /// and logs it for the principal. Fails, changing nothing, when the name is
    /// blank.
    pub fn register_artist(
        &mut self,
        principal: String,
        name: String,
        bio: String,
        social: Option<String>,
        profile_image_url: Option<String>,
        links: Option<Vec<String>>,
        now: u64,
    ) -> (r: Option<Artist>)
        requires
            old(self).wf(),
            old(self).next_artist_id < u64::MAX,
        ensures
            final(self).wf(),
            r is None <==> blank(name@),
            r is None ==> *final(self) == *old(self),
            r matches Some(a) ==> {
                &&& a@ == ArtistView {
                    id: old(self).next_artist_id,
                    name,
                    bio,
                    social,
                    royalty_balance: 0,
                    profile_image_url,
                    links: opt_seq(links),
                    user_principal: principal,
                }
                &&& final(self).artists_view() == old(self).artists_view().push(a@)
                &&& final(self).next_artist_id == old(self).next_artist_id + 1
                &&& user_logged_once(
                    old(self).user_activity_log@,
                    final(self).user_activity_log@,
                    principal@,
                    "register_artist"@,
                    now,
                    "Registered artist: "@ + name@,
                )
                &&& final(self).same_tracks(old(self))
                &&& final(self).same_versions(old(self))
                &&& final(self).same_log(old(self))
                &&& final(self).same_requests(old(self))
                &&& final(self).same_tasks(old(self))
                &&& final(self).community == old(self).community
            },
    {
        if is_blank(name.as_str()) {
            return None;
        }
        let id = self.next_artist_id;
        let details = join2("Registered artist: ", name.as_str());
        let principal_text = principal.clone();
        let artist = Artist {
            id,
            name,
            bio,
            social,
            royalty_balance: 0,
            profile_image_url,
            links,
            user_principal: principal,
        };
        let result = artist.clone();
        proof {
            lemma_views_push(self.artists@, artist);
        }
        self.artists.push(artist);
        self.next_artist_id = id + 1;
        proof {
            let n = old(self).artists@.len();
            assert forall|j: int| 0 <= j < n implies #[trigger] self.artists@[j] == old(self).artists@[j] by {}
        }
        self.log_user_activity(principal_text.as_str(), "register_artist", now, details.as_str());
        Some(result)
    }

    /// The artist with this id.
    pub fn get_artist(&self, id: u64) -> (r: Option<Artist>)
        ensures
            match r {
                Some(a) => self.artist_at(id) == Some(a@),
                None => self.artist_at(id) is None,
            },
    {
        match self.find_artist(id) {
            Some(i) => Some(self.artists[i].clone()),
            None => None,
        }
    }

    /// Replaces an artist's profile, keeping its id, balance and principal, and
    /// logs it for the calling principal. Fails, changing nothing, when the
    /// artist is unknown.
    pub fn update_artist(
        &mut self,
        principal: String,
        id: u64,
        name: String,
        bio: String,
        social: Option<String>,
        profile_image_url: Option<String>,
        links: Option<Vec<String>>,
        now: u64,
    ) -> (r: Option<Artist>)
        requires
            old(self).wf(),
        ensures
            final(self).wf(),
            r is Some <==> old(self).artist_index(id) >= 0,
            r is None ==> *final(self) == *old(self),
            r matches Some(a) ==> {
                let k = old(self).artist_index(id);
                &&& a@ == ArtistView {
                    name,
                    bio,
                    social,
                    profile_image_url,
                    links: opt_seq(links),
                    ..old(self).artists_view()[k]
                }
                &&& final(self).artists_view() == old(self).artists_view().update(k, a@)
                &&& final(self).next_artist_id == old(self).next_artist_id
                &&& user_logged_once(
                    old(self).user_activity_log@,
                    final(self).user_activity_log@,
                    principal@,
                    "update_artist"@,
                    now,
                    "Updated artist: "@ + name@,
                )
                &&& final(self).same_tracks(old(self))
                &&& final(self).same_versions(old(self))
                &&& final(self).same_log(old(self))
                &&& final(self).same_requests(old(self))
                &&& final(self).same_tasks(old(self))
                &&& final(self).community == old(self).community
            },
    {
        let i = match self.find_artist(id) {
            Some(i) => i,
            None => {
                return None;
            },
        };
        proof {
            lemma_first_match(self.artists@, artist_has_id(id));
        }
        let details = join2("Updated artist: ", name.as_str());
        let mut artist = self.artists[i].clone();
        artist.name = name;
        artist.bio = bio;
        artist.social = social;
        artist.profile_image_url = profile_image_url;
        artist.links = links;
        let result = artist.clone();
        proof {
            lemma_views_update(self.artists@, i as int, artist);
        }
        self.artists.set(i, artist);
        proof {
            assert forall|j: int| 0 <= j < self.artists@.len() implies #[trigger] self.artists@[j].id
                == old(self).artists@[j].id by {
                assert(views(self.artists@)[j].id == views(old(self).artists@)[j].id);
            }
        }
        self.log_user_activity(principal.as_str(), "update_artist", now, details.as_str());
        Some(result)
    }

    /// All artists, in the order they registered.
    pub fn list_artists(&self) -> (r: Vec<Artist>)
        ensures
            views(r@) == self.artists_view(),
    {
        let r = self.artists.clone();
        proof {
            assert(views(r@) =~= self.artists_view());
        }
        r
    }
}

} // verus!
