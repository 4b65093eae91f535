use vstd::prelude::*;
use vstd::string::StringExecFns;
use crate::activity::user_logged_once;
use crate::community::{AuditLogEntry, Community, User, UserRole};
use crate::store::{
    artist_has_id, first_match, lemma_filter_step, lemma_first_match, lemma_first_match_at,
    opt_index, Store,
};
use crate::text::{blank, decimal, has_sub, is_blank, join2, lower_of, to_decimal, to_lower};
use crate::tracks::view_id_is_not;

verus! {

pub open spec fn user_is(p: Seq<char>) -> spec_fn(User) -> bool {
    |u: User| u.principal@ == p
}

pub open spec fn user_is_not(p: Seq<char>) -> spec_fn(User) -> bool {
    |u: User| u.principal@ != p
}

/// A user whose name, lowercased, holds the lowercased query.
pub open spec fn by_username(lowered_query: Seq<char>) -> spec_fn(User) -> bool {
    |u: User| has_sub(lower_of(u.username@), lowered_query)
}

/// Some user with this principal is an administrator.
pub open spec fn admin_in(users: Seq<User>, p: Seq<char>) -> bool {
    exists|i: int| 0 <= i < users.len() && (#[trigger] users[i]).principal@ == p && users[i].role == UserRole::Admin
}

/// `new` is `old` with one entry appended for this administrator's action.
pub open spec fn audited_once(
    old: &Community,
    new: &Community,
    admin: Seq<char>,
    action: Seq<char>,
    target_type: Seq<char>,
    target_id: Seq<char>,
    details: Seq<char>,
    now: u64,
) -> bool {
    let e = new.audit_log@.last();
    &&& new.audit_log@.len() == old.audit_log@.len() + 1
    &&& new.audit_log@.drop_last() == old.audit_log@
    &&& e.id == old.next_audit_id
    &&& e.admin@ == admin
    &&& e.action@ == action
    &&& e.target_type@ == target_type
    &&& e.target_id@ == target_id
    &&& e.timestamp == now
    &&& e.details matches Some(d) && d@ == details
    &&& new.next_audit_id == old.next_audit_id + 1
    &&& *new == (Community { audit_log: new.audit_log, next_audit_id: new.next_audit_id, ..*old })
}

/// A filter that every element passes keeps the sequence whole.
pub proof fn lemma_filter_all<T>(s: Seq<T>, p: spec_fn(T) -> bool)
    requires
        forall|j: int| 0 <= j < s.len() ==> p(#[trigger] s[j]),
    ensures
        s.filter(p) == s,
    decreases s.len(),
{
    reveal_with_fuel(Seq::filter, 1);
    if s.len() > 0 {
        let s0 = s.drop_last();
        assert forall|j: int| 0 <= j < s0.len() implies p(#[trigger] s0[j]) by {
            assert(s0[j] == s[j]);
        }
        lemma_filter_all(s0, p);
        assert(s0.push(s.last()) =~= s);
    } else {
        assert(s.filter(p) =~= s);
    }
}

impl Store {
    /// Artists, tracks, versions, the activity log, requests and tasks are as in `o`.
    pub open spec fn same_core(&self, o: &Store) -> bool {
        &&& self.same_artists(o)
        &&& self.same_tracks(o)
        &&& self.same_versions(o)
        &&& self.same_log(o)
        &&& self.same_requests(o)
        &&& self.same_tasks(o)
    }

    /// Position of the user with this principal, or -1.
    pub open spec fn user_index(&self, p: Seq<char>) -> int {
        first_match(self.community.users@, user_is(p))
    }

    pub(crate) fn find_user(&self, p: &String) -> (r: Option<usize>)
        ensures
            opt_index(r) == self.user_index(p@),
            r matches Some(i) ==> i < self.community.users@.len()
                && self.community.users@[i as int].principal@ == p@,
    {
        let users = &self.community.users;
        let mut i: usize = 0;
        while i < users.len()
            invariant
                users == &self.community.users,
                i <= users@.len(),
                forall|j: int| 0 <= j < i ==> (#[trigger] users@[j]).principal@ != p@,
            decreases users@.len() - i,
        {
            if users[i].principal == *p {
                proof {
                    lemma_first_match_at(users@, user_is(p@), i as int);
                }
                return Some(i);
            }
            i = i + 1;
        }
        proof {
            lemma_first_match(users@, user_is(p@));
        }
        None
    }

    /// Creates the profile of the calling principal and logs it. Fails, changing
    /// nothing, when the name is blank or the principal already has a profile.
    pub fn register_user(
        &mut self,
        caller: String,
        username: String,
        bio: Option<String>,
        avatar_url: Option<String>,
        now: u64,
    ) -> (r: Option<User>)
        requires
            old(self).wf(),
        ensures
            final(self).wf(),
            r is None <==> (blank(username@) || old(self).user_index(caller@) >= 0),
            r is None ==> *final(self) == *old(self),
            r matches Some(u) ==> {
                &&& u == User { principal: caller, username, bio, avatar_url, role: UserRole::User }
                &&& final(self).community.users@ == old(self).community.users@.push(u)
                &&& final(self).community == (Community {
                    users: final(self).community.users,
                    ..old(self).community
                })
                &&& user_logged_once(
                    old(self).user_activity_log@,
                    final(self).user_activity_log@,
                    caller@,
                    "register_user"@,
                    now,
                    "Registered user: "@ + username@,
                )
                &&& final(self).same_core(old(self))
            },
    {
        if is_blank(username.as_str()) {
            return None;
        }
        if self.find_user(&caller).is_some() {
            return None;
        }
        let details = join2("Registered user: ", username.as_str());
        let who = caller.clone();
        let u = User { principal: caller, username, bio, avatar_url, role: UserRole::User };
        let result = u.clone();
        self.community.users.push(u);
        self.log_user_activity(who.as_str(), "register_user", now, details.as_str());
        Some(result)
    }

    /// The profile of a principal.
    pub fn get_user_by_principal(&self, principal: &String) -> (r: Option<User>)
        ensures
            r == (if self.user_index(principal@) >= 0 {
                Some(self.community.users@[self.user_index(principal@)])
            } else {
                None
            }),
    {
        match self.find_user(principal) {
            Some(i) => Some(self.community.users[i].clone()),
            None => None,
        }
    }

    /// The profile of the calling principal.
    pub fn get_user(&self, caller: &String) -> (r: Option<User>)
        ensures
            r == (if self.user_index(caller@) >= 0 {
                Some(self.community.users@[self.user_index(caller@)])
            } else {
                None
            }),
    {
        self.get_user_by_principal(caller)
    }

    /// Replaces the name, bio and avatar of the calling principal's profile and
    /// logs it. Fails, changing nothing, when it has no profile.
    pub fn update_user(
        &mut self,
        caller: String,
        username: String,
        bio: Option<String>,
        avatar_url: Option<String>,
        now: u64,
    ) -> (r: Option<User>)
        requires
            old(self).wf(),
        ensures
            final(self).wf(),
            r is Some <==> old(self).user_index(caller@) >= 0,
            r is None ==> *final(self) == *old(self),
            r matches Some(u) ==> {
                let k = old(self).user_index(caller@);
                &&& u == (User { username, bio, avatar_url, ..old(self).community.users@[k] })
                &&& final(self).community.users@ == old(self).community.users@.update(k, u)
                &&& final(self).community == (Community {
                    users: final(self).community.users,
                    ..old(self).community
                })
                &&& user_logged_once(
                    old(self).user_activity_log@,
                    final(self).user_activity_log@,
                    caller@,
                    "update_user"@,
                    now,
                    "Updated user: "@ + username@,
                )
                &&& final(self).same_core(old(self))
            },
    {
        let i = match self.find_user(&caller) {
            Some(i) => i,
            None => {
                return None;
            },
        };
        proof {
            lemma_first_match(self.community.users@, user_is(caller@));
        }
        let details = join2("Updated user: ", username.as_str());
        let mut u = self.community.users[i].clone();
        u.username = username;
        u.bio = bio;
        u.avatar_url = avatar_url;
        let result = u.clone();
        self.community.users.set(i, u);
        self.log_user_activity(caller.as_str(), "update_user", now, details.as_str());
        Some(result)
    }

    /// Keeps only the profiles of other principals. Says whether one was removed.
    fn drop_user(&mut self, principal: &String) -> (r: bool)
        ensures
            r == (old(self).user_index(principal@) >= 0),
            !r ==> *final(self) == *old(self),
            final(self).community.users@ == old(self).community.users@.filter(
                user_is_not(principal@),
            ),
            final(self).community == (Community {
                users: final(self).community.users,
                ..old(self).community
            }),
            *final(self) == (Store { community: final(self).community, ..*old(self) }),
    {
        let users = &self.community.users;
        let mut kept: Vec<User> = Vec::new();
        let mut i: usize = 0;
        let mut removed = false;
        while i < users.len()
            invariant
                users == &old(self).community.users,
                i <= users@.len(),
                kept@ == users@.take(i as int).filter(user_is_not(principal@)),
                removed == exists|j: int| 0 <= j < i && (#[trigger] users@[j]).principal@ == principal@,
            decreases users@.len() - i,
        {
            proof {
                lemma_filter_step(users@, user_is_not(principal@), i as int);
            }
            if users[i].principal != *principal {
                kept.push(users[i].clone());
            } else {
                removed = true;
            }
            i = i + 1;
        }
        proof {
            assert(users@.take(users@.len() as int) =~= users@);
            lemma_first_match(users@, user_is(principal@));
            if removed {
                let j = choose|j: int| 0 <= j < i && (#[trigger] users@[j]).principal@ == principal@;
                assert(user_is(principal@)(users@[j]));
            }
        }
        if removed {
            self.community.users = kept;
        } else {
            proof {
                assert forall|j: int| 0 <= j < users@.len() implies user_is_not(principal@)(
                    #[trigger] users@[j],
                ) by {}
                lemma_filter_all(users@, user_is_not(principal@));
            }
        }
        removed
    }

    /// Removes the calling principal's profile, logging it when there was one.
    pub fn delete_user(&mut self, caller: String, now: u64) -> (r: bool)
        requires
            old(self).wf(),
        ensures
            final(self).wf(),
            r == (old(self).user_index(caller@) >= 0),
            !r ==> *final(self) == *old(self),
            r ==> {
                &&& final(self).community.users@ == old(self).community.users@.filter(
                    user_is_not(caller@),
                )
                &&& final(self).community == (Community {
                    users: final(self).community.users,
                    ..old(self).community
                })
                &&& user_logged_once(
                    old(self).user_activity_log@,
                    final(self).user_activity_log@,
                    caller@,
                    "delete_user"@,
                    now,
                    "Deleted user profile"@,
                )
                &&& final(self).same_core(old(self))
            },
    {
        let deleted = self.drop_user(&caller);
        if deleted {
            self.log_user_activity(caller.as_str(), "delete_user", now, "Deleted user profile");
        }
        deleted
    }

    /// All profiles, in the order they were created.
    pub fn list_users(&self) -> (r: Vec<User>)
        ensures
            r@ == self.community.users@,
    {
        self.community.users.clone()
    }

    /// The profiles whose name holds the query, ignoring case, in order.
    pub fn search_users_by_username(&self, query: String) -> (r: Vec<User>)
        ensures
            r@ == self.community.users@.filter(by_username(lower_of(query@))),
    {
        let q = to_lower(query.as_str());
        let users = &self.community.users;
        let mut r: Vec<User> = Vec::new();
        let mut i: usize = 0;
        while i < users.len()
            invariant
                q@ == lower_of(query@),
                i <= users@.len(),
                r@ == users@.take(i as int).filter(by_username(q@)),
            decreases users@.len() - i,
        {
            proof {
                lemma_filter_step(users@, by_username(q@), i as int);
            }
            let name = to_lower(users[i].username.as_str());
            if crate::search::matches_lowered(name.as_str(), q.as_str()) {
                r.push(users[i].clone());
            }
            i = i + 1;
        }
        proof {
            assert(users@.take(users@.len() as int) =~= users@);
        }
        r
    }

    /// Logs a placeholder entry for the calling principal.
    pub fn add_dummy_activity(&mut self, caller: String, now: u64)
        requires
            old(self).wf(),
        ensures
            final(self).wf(),
            user_logged_once(
                old(self).user_activity_log@,
                final(self).user_activity_log@,
                caller@,
                "dummy_action"@,
                now,
                "This is a test activity"@,
            ),
            final(self).same_core(old(self)),
            final(self).community == old(self).community,
    {
        self.log_user_activity(caller.as_str(), "dummy_action", now, "This is a test activity");
    }

    /// Whether the principal's profile is an administrator's.
    pub fn is_admin(&self, principal: &String) -> (r: bool)
        ensures
            r == admin_in(self.community.users@, principal@),
    {
        let users = &self.community.users;
        let mut i: usize = 0;
        while i < users.len()
            invariant
                users == &self.community.users,
                i <= users@.len(),
                forall|j: int|
                    0 <= j < i ==> !((#[trigger] users@[j]).principal@ == principal@ && users@[j].role
                        == UserRole::Admin),
            decreases users@.len() - i,
        {
            if users[i].principal == *principal && users[i].role == UserRole::Admin {
                proof {
                    assert(users@[i as int].principal@ == principal@);
                }
                return true;
            }
            i = i + 1;
        }
        false
    }

    /// Makes the calling principal an administrator. Fails when it has no profile.
    pub fn promote_to_admin(&mut self, caller: String) -> (r: bool)
        requires
            old(self).wf(),
        ensures
            final(self).wf(),
            r == (old(self).user_index(caller@) >= 0),
            !r ==> *final(self) == *old(self),
            r ==> {
                let k = old(self).user_index(caller@);
                &&& final(self).community.users@ == old(self).community.users@.update(
                    k,
                    User { role: UserRole::Admin, ..old(self).community.users@[k] },
                )
                &&& final(self).community == (Community {
                    users: final(self).community.users,
                    ..old(self).community
                })
                &&& final(self).same_core(old(self))
                &&& final(self).same_user_log(old(self))
            },
    {
        match self.find_user(&caller) {
            Some(i) => {
                let mut u = self.community.users[i].clone();
                u.role = UserRole::Admin;
                self.community.users.set(i, u);
                true
            },
            None => false,
        }
    }

    /// Appends an entry to the audit trail.
    pub fn log_admin_action(
        &mut self,
        admin: &str,
        action: &str,
        target_type: &str,
        target_id: &str,
        details: &str,
        now: u64,
    )
        requires
            old(self).wf(),
            old(self).community.next_audit_id < u64::MAX,
        ensures
            final(self).wf(),
            audited_once(
                &old(self).community,
                &final(self).community,
                admin@,
                action@,
                target_type@,
                target_id@,
                details@,
                now,
            ),
            *final(self) == (Store { community: final(self).community, ..*old(self) }),
    {
        let id = self.community.next_audit_id;
        self.community.audit_log.push(
            AuditLogEntry {
                id,
                admin: String::from_str(admin),
                action: String::from_str(action),
                target_type: String::from_str(target_type),
                target_id: String::from_str(target_id),
                timestamp: now,
                details: Some(String::from_str(details)),
            },
        );
        self.community.next_audit_id = id + 1;
        proof {
            assert(self.community.audit_log@.drop_last() =~= old(self).community.audit_log@);
        }
    }

    /// The audit trail, oldest first.
    pub fn list_audit_log(&self) -> (r: Vec<AuditLogEntry>)
        ensures
            r@ == self.community.audit_log@,
    {
        self.community.audit_log.clone()
    }

    /// Lets an administrator demote a user to an ordinary one, and audits it.
    /// Fails, changing nothing, when the caller is no administrator or the user
    /// has no profile.
    pub fn ban_user(&mut self, caller: String, target: String, now: u64) -> (r: bool)
        requires
            old(self).wf(),
            old(self).community.next_audit_id < u64::MAX,
        ensures
            final(self).wf(),
            r == (admin_in(old(self).community.users@, caller@) && old(self).user_index(target@)
                >= 0),
            !r ==> *final(self) == *old(self),
            r ==> {
                let k = old(self).user_index(target@);
                &&& final(self).community.users@ == old(self).community.users@.update(
                    k,
                    User { role: UserRole::User, ..old(self).community.users@[k] },
                )
                &&& audited_once(
                    &(Community { users: final(self).community.users, ..old(self).community }),
                    &final(self).community,
                    caller@,
                    "ban_user"@,
                    "User"@,
                    target@,
                    "User banned by admin"@,
                    now,
                )
                &&& *final(self) == (Store { community: final(self).community, ..*old(self) })
            },
    {
        if !self.is_admin(&caller) {
            return false;
        }
        let i = match self.find_user(&target) {
            Some(i) => i,
            None => {
                return false;
            },
        };
        let mut u = self.community.users[i].clone();
        u.role = UserRole::User;
        self.community.users.set(i, u);
        self.log_admin_action(
            caller.as_str(),
            "ban_user",
            "User",
            target.as_str(),
            "User banned by admin",
            now,
        );
        true
    }
    /// Lets an administrator remove a user's profile, and audits it. Fails,
    /// changing nothing, when the caller is no administrator or the user has no
    /// profile.
    pub fn delete_user_by_admin(&mut self, caller: String, target: String, now: u64) -> (r: bool)
        requires
            old(self).wf(),
            old(self).community.next_audit_id < u64::MAX,
        ensures
            final(self).wf(),
            r == (admin_in(old(self).community.users@, caller@) && old(self).user_index(target@)
                >= 0),
            !r ==> *final(self) == *old(self),
            r ==> {
                &&& final(self).community.users@ == old(self).community.users@.filter(
                    user_is_not(target@),
                )
                &&& audited_once(
                    &(Community { users: final(self).community.users, ..old(self).community }),
                    &final(self).community,
                    caller@,
                    "delete_user_by_admin"@,
                    "User"@,
                    target@,
                    "User deleted by admin"@,
                    now,
                )
                &&& *final(self) == (Store { community: final(self).community, ..*old(self) })
            },
    {
        if !self.is_admin(&caller) {
            return false;
        }
        let deleted = self.drop_user(&target);
        if deleted {
            self.log_admin_action(
                caller.as_str(),
                "delete_user_by_admin",
                "User",
                target.as_str(),
                "User deleted by admin",
                now,
            );
        }
        deleted
    }

    /// Lets an administrator remove an artist, and audits it. Fails, changing
    /// nothing, when the caller is no administrator or the artist is unknown.
    pub fn delete_artist_by_admin(&mut self, caller: String, artist_id: u64, now: u64) -> (r: bool)
        requires
            old(self).wf(),
            old(self).community.next_audit_id < u64::MAX,
        ensures
            final(self).wf(),
            r == (admin_in(old(self).community.users@, caller@) && old(self).artist_index(artist_id)
                >= 0),
            !r ==> *final(self) == *old(self),
            r ==> {
                &&& final(self).artists@ == old(self).artists@.remove(old(self).artist_index(artist_id))
                &&& final(self).artist_index(artist_id) == -1
                &&& audited_once(
                    &old(self).community,
                    &final(self).community,
                    caller@,
                    "delete_artist_by_admin"@,
                    "Artist"@,
                    decimal(artist_id as nat),
                    "Artist deleted by admin"@,
                    now,
                )
                &&& *final(self) == (Store {
                    artists: final(self).artists,
                    community: final(self).community,
                    ..*old(self)
                })
            },
    {
        if !self.is_admin(&caller) {
            return false;
        }
        let i = match self.find_artist(artist_id) {
            Some(i) => i,
            None => {
                return false;
            },
        };
        let ghost a0 = self.artists@;
        self.artists.remove(i);
        proof {
            let a = self.artists@;
            assert forall|j: int| 0 <= j < a.len() implies !artist_has_id(artist_id)(#[trigger] a[j]) by {
                if j < i {
                    assert(a[j] == a0[j]);
                    assert(a0[j].id != a0[i as int].id);
                } else {
                    assert(a[j] == a0[j + 1]);
                    assert(a0[i as int].id != a0[j + 1].id);
                }
            }
            lemma_first_match(a, artist_has_id(artist_id));
            assert forall|x: int, y: int| 0 <= x < y < a.len() implies #[trigger] a[x].id
                != #[trigger] a[y].id by {
                let x0 = if x < i { x } else { x + 1 };
                let y0 = if y < i { y } else { y + 1 };
                assert(a[x] == a0[x0]);
                assert(a[y] == a0[y0]);
            }
            assert forall|x: int| 0 <= x < a.len() implies #[trigger] a[x].id < self.next_artist_id by {
                if x < i {
                    assert(a[x] == a0[x]);
                } else {
                    assert(a[x] == a0[x + 1]);
                }
            }
        }
        let id_text = to_decimal(artist_id);
        self.log_admin_action(
            caller.as_str(),
            "delete_artist_by_admin",
            "Artist",
            id_text.as_str(),
            "Artist deleted by admin",
            now,
        );
        true
    }

    /// Lets an administrator remove a track, and audits it; its history of
    /// versions stays. Fails, changing nothing, when the caller is no
    /// administrator or the track is unknown.
    pub fn delete_track_by_admin(&mut self, caller: String, track_id: u64, now: u64) -> (r: bool)
        requires
            old(self).wf(),
            old(self).community.next_audit_id < u64::MAX,
        ensures
            final(self).wf(),
            r == (admin_in(old(self).community.users@, caller@) && old(self).track_index(track_id)
                >= 0),
            !r ==> *final(self) == *old(self),
            r ==> {
                &&& final(self).tracks_view() == old(self).tracks_view().filter(
                    view_id_is_not(track_id),
                )
                &&& final(self).track_at(track_id) is None
                &&& audited_once(
                    &old(self).community,
                    &final(self).community,
                    caller@,
                    "delete_track_by_admin"@,
                    "Track"@,
                    decimal(track_id as nat),
                    "Track deleted by admin"@,
                    now,
                )
                &&& *final(self) == (Store {
                    tracks: final(self).tracks,
                    community: final(self).community,
                    ..*old(self)
                })
            },
    {
        if !self.is_admin(&caller) {
            return false;
        }
        if self.find_track(track_id).is_none() {
            return false;
        }
        self.drop_tracks_with_id(track_id);
        let id_text = to_decimal(track_id);
        self.log_admin_action(
            caller.as_str(),
            "delete_track_by_admin",
            "Track",
            id_text.as_str(),
            "Track deleted by admin",
            now,
        );
        true
    }
}

} // verus!
