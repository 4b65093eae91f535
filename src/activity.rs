use vstd::prelude::*;
use crate::store::{lemma_filter_step, Store};
use crate::types::{Activity, UserActivity};
use vstd::string::StringExecFns;

verus! {

/// `a` records that `user` did `action` at `timestamp`, with these details.
pub open spec fn is_activity(
    a: Activity,
    user: u64,
    action: Seq<char>,
    timestamp: u64,
    details: Seq<char>,
) -> bool {
    a.user_id == user && a.action@ == action && a.timestamp == timestamp && a.details@ == details
}

/// `new` is `old` with one entry appended for this action.
pub open spec fn logged_once(
    old: Seq<Activity>,
    new: Seq<Activity>,
    user: u64,
    action: Seq<char>,
    timestamp: u64,
    details: Seq<char>,
) -> bool {
    new.len() == old.len() + 1 && new.drop_last() == old && is_activity(
        new.last(),
        user,
        action,
        timestamp,
        details,
    )
}

pub open spec fn by_user(user: u64) -> spec_fn(Activity) -> bool {
    |a: Activity| a.user_id == user
}

/// Where the most recent `count` entries of a log of length `len` start.
pub open spec fn recent_start(len: nat, count: nat) -> int {
    if len > count {
        len - count
    } else {
        0
    }
}

/// `new` is `old` with one entry appended to the per-user log.
pub open spec fn user_logged_once(
    old: Seq<UserActivity>,
    new: Seq<UserActivity>,
    principal: Seq<char>,
    action: Seq<char>,
    timestamp: u64,
    details: Seq<char>,
) -> bool {
    &&& new.len() == old.len() + 1
    &&& new.drop_last() == old
    &&& new.last().principal@ == principal
    &&& new.last().action@ == action
    &&& new.last().timestamp == timestamp
    &&& new.last().details@ == details
}

pub open spec fn by_principal(p: Seq<char>) -> spec_fn(UserActivity) -> bool {
    |a: UserActivity| a.principal@ == p
}

impl Store {
    /// Appends an entry to the activity log.
    pub fn log_activity(&mut self, user_id: u64, action: &str, timestamp: u64, details: &str)
        ensures
            logged_once(
                old(self).activity_log@,
                final(self).activity_log@,
                user_id,
                action@,
                timestamp,
                details@,
            ),
            final(self).same_artists(old(self)),
            final(self).same_tracks(old(self)),
            final(self).same_versions(old(self)),
            final(self).same_user_log(old(self)),
            final(self).same_requests(old(self)),
            final(self).same_tasks(old(self)),
            final(self).community == old(self).community,
    {
        self.activity_log.push(
            Activity {
                user_id,
                action: String::from_str(action),
                timestamp,
                details: String::from_str(details),
            },
        );
        proof {
            assert(final(self).activity_log@.drop_last() =~= old(self).activity_log@);
        }
    }

    /// The entries of one user, in the order they were logged.
    pub fn get_user_activity(&self, user_id: u64) -> (r: Vec<Activity>)
        ensures
            r@ == self.activity_log@.filter(by_user(user_id)),
    {
        let mut r: Vec<Activity> = Vec::new();
        let mut i: usize = 0;
        while i < self.activity_log.len()
            invariant
                i <= self.activity_log@.len(),
                r@ == self.activity_log@.take(i as int).filter(by_user(user_id)),
            decreases self.activity_log@.len() - i,
        {
            proof {
                lemma_filter_step(self.activity_log@, by_user(user_id), i as int);
            }
            if self.activity_log[i].user_id == user_id {
                r.push(self.activity_log[i].clone());
            }
            i = i + 1;
        }
        proof {
            assert(self.activity_log@.take(self.activity_log@.len() as int) =~= self.activity_log@);
        }
        r
    }

    /// The last `count` entries of the log, or all of it when it is shorter.
    pub fn get_recent_activity(&self, count: u32) -> (r: Vec<Activity>)
        ensures
            r@ == self.activity_log@.subrange(
                recent_start(self.activity_log@.len(), count as nat),
                self.activity_log@.len() as int,
            ),
    {
        let len = self.activity_log.len();
        let start: usize = if len > count as usize {
            len - count as usize
        } else {
            0
        };
        let mut r: Vec<Activity> = Vec::new();
        let mut i: usize = start;
        while i < len
            invariant
                len == self.activity_log@.len(),
                start == recent_start(len as nat, count as nat),
                start <= i <= len,
                r@ == self.activity_log@.subrange(start as int, i as int),
            decreases len - i,
        {
            r.push(self.activity_log[i].clone());
            i = i + 1;
            proof {
                assert(r@ =~= self.activity_log@.subrange(start as int, i as int));
            }
        }
        r
    }

    /// Appends an entry to the per-user log.
    pub fn log_user_activity(
        &mut self,
        principal: &str,
        action: &str,
        timestamp: u64,
        details: &str,
    )
        ensures
            user_logged_once(
                old(self).user_activity_log@,
                final(self).user_activity_log@,
                principal@,
                action@,
                timestamp,
                details@,
            ),
            final(self).same_artists(old(self)),
            final(self).same_tracks(old(self)),
            final(self).same_versions(old(self)),
            final(self).same_log(old(self)),
            final(self).same_requests(old(self)),
            final(self).same_tasks(old(self)),
            final(self).community == old(self).community,
    {
        self.user_activity_log.push(
            UserActivity {
                principal: String::from_str(principal),
                action: String::from_str(action),
                timestamp,
                details: String::from_str(details),
            },
        );
        proof {
            assert(final(self).user_activity_log@.drop_last() =~= old(self).user_activity_log@);
        }
    }

    /// The per-user entries of one principal, in the order they were logged.
    pub fn get_user_activity_log(&self, principal: &String) -> (r: Vec<UserActivity>)
        ensures
            r@ == self.user_activity_log@.filter(by_principal(principal@)),
    {
        let mut r: Vec<UserActivity> = Vec::new();
        let mut i: usize = 0;
        while i < self.user_activity_log.len()
            invariant
                i <= self.user_activity_log@.len(),
                r@ == self.user_activity_log@.take(i as int).filter(by_principal(principal@)),
            decreases self.user_activity_log@.len() - i,
        {
            proof {
                lemma_filter_step(self.user_activity_log@, by_principal(principal@), i as int);
            }
            if self.user_activity_log[i].principal == *principal {
                r.push(self.user_activity_log[i].clone());
            }
            i = i + 1;
        }
        proof {
            assert(self.user_activity_log@.take(self.user_activity_log@.len() as int)
                =~= self.user_activity_log@);
        }
        r
    }
}

} // verus!
