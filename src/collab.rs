use vstd::prelude::*;
use crate::store::{lemma_filter_step, lemma_first_match, request_is_pending, task_has_id, Store};
use crate::text::{blank, is_blank};
use crate::types::{CollabRequest, CollabRequestStatus, Task, TaskStatus};

verus! {

/// A pending request from `from` to `to` about `track_id` is among `reqs`.
pub open spec fn has_pending(reqs: Seq<CollabRequest>, from: u64, to: u64, track_id: u64) -> bool {
    exists|i: int|
        0 <= i < reqs.len() && (#[trigger] reqs[i]).from == from && reqs[i].to == to
            && reqs[i].track_id == track_id && reqs[i].status == CollabRequestStatus::Pending
}

pub open spec fn involves(user: u64) -> spec_fn(CollabRequest) -> bool {
    |r: CollabRequest| r.to == user || r.from == user
}

pub open spec fn task_on_track(track_id: u64) -> spec_fn(Task) -> bool {
    |t: Task| t.track_id == track_id
}

pub open spec fn task_assigned_to(user: u64) -> spec_fn(Task) -> bool {
    |t: Task| t.assigned_to == user
}

impl Store {
    /// Only the collaboration requests differ from `o`.
    pub open spec fn only_requests_differ(&self, o: &Store) -> bool {
        &&& self.same_artists(o)
        &&& self.same_tracks(o)
        &&& self.same_versions(o)
        &&& self.same_log(o)
        &&& self.same_user_log(o)
        &&& self.same_tasks(o)
        &&& self.community == o.community
    }

    /// Only the tasks differ from `o`.
    pub open spec fn only_tasks_differ(&self, o: &Store) -> bool {
        &&& self.same_artists(o)
        &&& self.same_tracks(o)
        &&& self.same_versions(o)
        &&& self.same_log(o)
        &&& self.same_user_log(o)
        &&& self.same_requests(o)
        &&& self.community == o.community
    }

    /// Whether a request from `from` to `to` about `track_id` is pending.
    pub fn has_pending_request(&self, from: u64, to: u64, track_id: u64) -> (r: bool)
        ensures
            r == has_pending(self.collab_requests@, from, to, track_id),
    {
        let mut i: usize = 0;
        while i < self.collab_requests.len()
            invariant
                i <= self.collab_requests@.len(),
                forall|j: int|
                    0 <= j < i ==> !((#[trigger] self.collab_requests@[j]).from == from
                        && self.collab_requests@[j].to == to && self.collab_requests@[j].track_id
                        == track_id && self.collab_requests@[j].status
                        == CollabRequestStatus::Pending),
            decreases self.collab_requests@.len() - i,
        {
            let q = &self.collab_requests[i];
            if q.from == from && q.to == to && q.track_id == track_id && q.status
                == CollabRequestStatus::Pending {
                proof {
                    assert(self.collab_requests@[i as int].from == from);
                }
                return true;
            }
            i = i + 1;
        }
        false
    }

    /// Opens a pending request from one artist to another about a track. Fails,
    /// changing nothing, while an equal request is still pending.
    pub fn send_collab_request(
        &mut self,
        from: u64,
        to: u64,
        track_id: u64,
        message: Option<String>,
        now: u64,
    ) -> (r: Option<CollabRequest>)
        requires
            old(self).wf(),
            old(self).next_collab_request_id < u64::MAX,
        ensures
            final(self).wf(),
            r is None <==> has_pending(old(self).collab_requests@, from, to, track_id),
            r is None ==> *final(self) == *old(self),
            r matches Some(q) ==> {
                &&& q == CollabRequest {
                    id: old(self).next_collab_request_id,
                    from,
                    to,
                    track_id,
                    message,
                    status: CollabRequestStatus::Pending,
                    timestamp: now,
                }
                &&& final(self).collab_requests@ == old(self).collab_requests@.push(q)
                &&& final(self).next_collab_request_id == old(self).next_collab_request_id + 1
                &&& final(self).same_artists(old(self))
                &&& final(self).same_tracks(old(self))
                &&& final(self).same_versions(old(self))
                &&& final(self).same_log(old(self))
                &&& final(self).same_user_log(old(self))
                &&& final(self).same_tasks(old(self))
                &&& final(self).community == old(self).community
            },
    {
        if self.has_pending_request(from, to, track_id) {
            return None;
        }
        let id = self.next_collab_request_id;
        let q = CollabRequest {
            id,
            from,
            to,
            track_id,
            message,
            status: CollabRequestStatus::Pending,
            timestamp: now,
        };
        let result = q.clone();
        self.collab_requests.push(q);
        self.next_collab_request_id = id + 1;
        proof {
            let n = old(self).collab_requests@.len();
            assert forall|j: int| 0 <= j < self.collab_requests@.len() implies #[trigger] self.collab_requests@[j].id
                < self.next_collab_request_id by {
                if j < n {
                    assert(self.collab_requests@[j] == old(self).collab_requests@[j]);
                }
            }
        }
        Some(result)
    }

    /// Accepts or declines a pending request. Fails, changing nothing, when no
    /// pending request has this id.
    pub fn respond_collab_request(&mut self, request_id: u64, accept: bool) -> (r: Option<
        CollabRequest,
    >)
        requires
            old(self).wf(),
        ensures
            final(self).wf(),
            r is Some <==> old(self).pending_request_index(request_id) >= 0,
            r is None ==> *final(self) == *old(self),
            r matches Some(q) ==> {
                let k = old(self).pending_request_index(request_id);
                &&& q == CollabRequest {
                    status: if accept {
                        CollabRequestStatus::Accepted
                    } else {
                        CollabRequestStatus::Declined
                    },
                    ..old(self).collab_requests@[k]
                }
                &&& final(self).collab_requests@ == old(self).collab_requests@.update(k, q)
                &&& final(self).next_collab_request_id == old(self).next_collab_request_id
                &&& final(self).only_requests_differ(old(self))
            },
    {
        match self.find_pending_request(request_id) {
            Some(i) => {
                proof {
                    lemma_first_match(self.collab_requests@, request_is_pending(request_id));
                }
                let mut q = self.collab_requests[i].clone();
                q.status =
                if accept {
                    CollabRequestStatus::Accepted
                } else {
                    CollabRequestStatus::Declined
                };
                let result = q.clone();
                self.collab_requests.set(i, q);
                Some(result)
            },
            None => None,
        }
    }

    /// The requests that a user sent or received, oldest first.
    pub fn list_collab_requests_for_user(&self, user_id: u64) -> (r: Vec<CollabRequest>)
        ensures
            r@ == self.collab_requests@.filter(involves(user_id)),
    {
        let mut r: Vec<CollabRequest> = Vec::new();
        let mut i: usize = 0;
        while i < self.collab_requests.len()
            invariant
                i <= self.collab_requests@.len(),
                r@ == self.collab_requests@.take(i as int).filter(involves(user_id)),
            decreases self.collab_requests@.len() - i,
        {
            proof {
                lemma_filter_step(self.collab_requests@, involves(user_id), i as int);
            }
            let q = &self.collab_requests[i];
            if q.to == user_id || q.from == user_id {
                r.push(q.clone());
            }
            i = i + 1;
        }
        proof {
            assert(self.collab_requests@.take(self.collab_requests@.len() as int)
                =~= self.collab_requests@);
        }
        r
    }

    /// Opens a task on a track for an artist. Fails, changing nothing, when the
    /// description is blank.
    pub fn create_task(&mut self, track_id: u64, assigned_to: u64, description: String, now: u64) -> (r:
        Option<Task>)
        requires
            old(self).wf(),
            old(self).next_task_id < u64::MAX,
        ensures
            final(self).wf(),
            r is None <==> blank(description@),
            r is None ==> *final(self) == *old(self),
            r matches Some(t) ==> {
                &&& t == Task {
                    id: old(self).next_task_id,
                    track_id,
                    assigned_to,
                    description,
                    status: TaskStatus::Open,
                    created_at: now,
                    updated_at: now,
                }
                &&& final(self).tasks@ == old(self).tasks@.push(t)
                &&& final(self).next_task_id == old(self).next_task_id + 1
                &&& final(self).only_tasks_differ(old(self))
            },
    {
        if is_blank(description.as_str()) {
            return None;
        }
        let id = self.next_task_id;
        let t = Task {
            id,
            track_id,
            assigned_to,
            description,
            status: TaskStatus::Open,
            created_at: now,
            updated_at: now,
        };
        let result = t.clone();
        self.tasks.push(t);
        self.next_task_id = id + 1;
        proof {
            let n = old(self).tasks@.len();
            assert forall|j: int| 0 <= j < self.tasks@.len() implies #[trigger] self.tasks@[j].id
                < self.next_task_id by {
                if j < n {
                    assert(self.tasks@[j] == old(self).tasks@[j]);
                }
            }
        }
        Some(result)
    }

    /// Sets the status of a task, whatever it was before, and stamps the change.
    /// Fails, changing nothing, when the task is unknown.
    pub fn update_task_status(&mut self, task_id: u64, status: TaskStatus, now: u64) -> (r: Option<
        Task,
    >)
        requires
            old(self).wf(),
        ensures
            final(self).wf(),
            r is Some <==> old(self).task_index(task_id) >= 0,
            r is None ==> *final(self) == *old(self),
            r matches Some(t) ==> {
                let k = old(self).task_index(task_id);
                &&& t == Task { status, updated_at: now, ..old(self).tasks@[k] }
                &&& final(self).tasks@ == old(self).tasks@.update(k, t)
                &&& final(self).next_task_id == old(self).next_task_id
                &&& final(self).only_tasks_differ(old(self))
            },
    {
        match self.find_task(task_id) {
            Some(i) => {
                proof {
                    lemma_first_match(self.tasks@, task_has_id(task_id));
                }
                let mut t = self.tasks[i].clone();
                t.status = status;
                t.updated_at = now;
                let result = t.clone();
                self.tasks.set(i, t);
                Some(result)
            },
            None => None,
        }
    }

    /// The tasks on a track, oldest first.
    pub fn list_tasks_for_track(&self, track_id: u64) -> (r: Vec<Task>)
        ensures
            r@ == self.tasks@.filter(task_on_track(track_id)),
    {
        let mut r: Vec<Task> = Vec::new();
        let mut i: usize = 0;
        while i < self.tasks.len()
            invariant
                i <= self.tasks@.len(),
                r@ == self.tasks@.take(i as int).filter(task_on_track(track_id)),
            decreases self.tasks@.len() - i,
        {
            proof {
                lemma_filter_step(self.tasks@, task_on_track(track_id), i as int);
            }
            if self.tasks[i].track_id == track_id {
                r.push(self.tasks[i].clone());
            }
            i = i + 1;
        }
        proof {
            assert(self.tasks@.take(self.tasks@.len() as int) =~= self.tasks@);
        }
        r
    }

    /// The tasks assigned to an artist, oldest first.
    pub fn list_tasks_for_user(&self, user_id: u64) -> (r: Vec<Task>)
        ensures
            r@ == self.tasks@.filter(task_assigned_to(user_id)),
    {
        let mut r: Vec<Task> = Vec::new();
        let mut i: usize = 0;
        while i < self.tasks.len()
            invariant
                i <= self.tasks@.len(),
                r@ == self.tasks@.take(i as int).filter(task_assigned_to(user_id)),
            decreases self.tasks@.len() - i,
        {
            proof {
                lemma_filter_step(self.tasks@, task_assigned_to(user_id), i as int);
            }
            if self.tasks[i].assigned_to == user_id {
                r.push(self.tasks[i].clone());
            }
            i = i + 1;
        }
        proof {
            assert(self.tasks@.take(self.tasks@.len() as int) =~= self.tasks@);
        }
        r
    }
}

} // verus!
