use vstd::prelude::*;
use vstd::string::StringExecFns;
use crate::community::Community;
use crate::moderation_types::{
    AppealStatus, LicenseType, ModerationQueueItem, ModerationStatus, ModerationTargetType,
    RateLimitEntry, Report, ReportStatus, ReportTargetType, Suspension, SuspensionAppeal,
    SuspensionStatus, SuspensionTargetType, TrackLicense,
};
use crate::store::{first_match, lemma_first_match, lemma_first_match_at, opt_index, Store};
use crate::text::{decimal, join2, join3, to_decimal};
use crate::users::{admin_in, audited_once};

verus! {

pub open spec fn report_is(id: u64) -> spec_fn(Report) -> bool {
    |r: Report| r.id == id
}

pub open spec fn license_of(track_id: u64) -> spec_fn(TrackLicense) -> bool {
    |l: TrackLicense| l.track_id == track_id
}

pub open spec fn limit_of(p: Seq<char>) -> spec_fn(RateLimitEntry) -> bool {
    |e: RateLimitEntry| e.principal@ == p
}

pub open spec fn item_is(id: u64) -> spec_fn(ModerationQueueItem) -> bool {
    |i: ModerationQueueItem| i.id == id
}

pub open spec fn active_suspension(id: u64) -> spec_fn(Suspension) -> bool {
    |s: Suspension| s.id == id && s.status == SuspensionStatus::Active
}

pub open spec fn appeal_is(id: u64) -> spec_fn(SuspensionAppeal) -> bool {
    |a: SuspensionAppeal| a.id == id
}

/// The details audited when a report is reviewed.
pub open spec fn report_reviewed(id: u64, status: ReportStatus) -> Seq<char> {
    "Report "@ + decimal(id as nat) + " reviewed: "@ + status.spec_name()
}

/// The details audited when a flagged item is reviewed.
pub open spec fn item_reviewed(id: u64, status: ModerationStatus) -> Seq<char> {
    "Moderation item "@ + decimal(id as nat) + " reviewed: "@ + status.spec_name()
}

/// The details audited when an appeal is reviewed.
pub open spec fn appeal_reviewed(id: u64, status: AppealStatus) -> Seq<char> {
    "Appeal "@ + decimal(id as nat) + " reviewed: "@ + status.spec_name()
}

/// The details audited when a suspension is lifted.
pub open spec fn suspension_lifted(id: u64) -> Seq<char> {
    "Suspension "@ + decimal(id as nat) + " lifted"@
}

impl Store {
    fn find_report(&self, id: u64) -> (r: Option<usize>)
        ensures
            opt_index(r) == first_match(self.community.reports@, report_is(id)),
            r matches Some(i) ==> i < self.community.reports@.len(),
    {
        let v = &self.community.reports;
        let mut i: usize = 0;
        while i < v.len()
            invariant
                v == &self.community.reports,
                i <= v@.len(),
                forall|j: int| 0 <= j < i ==> !report_is(id)(#[trigger] v@[j]),
            decreases v@.len() - i,
        {
            if v[i].id == id {
                proof {
                    lemma_first_match_at(v@, report_is(id), i as int);
                }
                return Some(i);
            }
            i = i + 1;
        }
        proof {
            lemma_first_match(v@, report_is(id));
        }
        None
    }

    fn find_license(&self, track_id: u64) -> (r: Option<usize>)
        ensures
            opt_index(r) == first_match(self.community.licenses@, license_of(track_id)),
            r matches Some(i) ==> i < self.community.licenses@.len(),
    {
        let v = &self.community.licenses;
        let mut i: usize = 0;
        while i < v.len()
            invariant
                v == &self.community.licenses,
                i <= v@.len(),
                forall|j: int| 0 <= j < i ==> !license_of(track_id)(#[trigger] v@[j]),
            decreases v@.len() - i,
        {
            if v[i].track_id == track_id {
                proof {
                    lemma_first_match_at(v@, license_of(track_id), i as int);
                }
                return Some(i);
            }
            i = i + 1;
        }
        proof {
            lemma_first_match(v@, license_of(track_id));
        }
        None
    }

    fn find_limit(&self, p: &String) -> (r: Option<usize>)
        ensures
            opt_index(r) == first_match(self.community.rate_limits@, limit_of(p@)),
            r matches Some(i) ==> i < self.community.rate_limits@.len(),
    {
        let v = &self.community.rate_limits;
        let mut i: usize = 0;
        while i < v.len()
            invariant
                v == &self.community.rate_limits,
                i <= v@.len(),
                forall|j: int| 0 <= j < i ==> !limit_of(p@)(#[trigger] v@[j]),
            decreases v@.len() - i,
        {
            if v[i].principal == *p {
                proof {
                    lemma_first_match_at(v@, limit_of(p@), i as int);
                }
                return Some(i);
            }
            i = i + 1;
        }
        proof {
            lemma_first_match(v@, limit_of(p@));
        }
        None
    }

    fn find_item(&self, id: u64) -> (r: Option<usize>)
        ensures
            opt_index(r) == first_match(self.community.moderation_queue@, item_is(id)),
            r matches Some(i) ==> i < self.community.moderation_queue@.len(),
    {
        let v = &self.community.moderation_queue;
        let mut i: usize = 0;
        while i < v.len()
            invariant
                v == &self.community.moderation_queue,
                i <= v@.len(),
                forall|j: int| 0 <= j < i ==> !item_is(id)(#[trigger] v@[j]),
            decreases v@.len() - i,
        {
            if v[i].id == id {
                proof {
                    lemma_first_match_at(v@, item_is(id), i as int);
                }
                return Some(i);
            }
            i = i + 1;
        }
        proof {
            lemma_first_match(v@, item_is(id));
        }
        None
    }

    fn find_active_suspension(&self, id: u64) -> (r: Option<usize>)
        ensures
            opt_index(r) == first_match(self.community.suspensions@, active_suspension(id)),
            r matches Some(i) ==> i < self.community.suspensions@.len(),
    {
        let v = &self.community.suspensions;
        let mut i: usize = 0;
        while i < v.len()
            invariant
                v == &self.community.suspensions,
                i <= v@.len(),
                forall|j: int| 0 <= j < i ==> !active_suspension(id)(#[trigger] v@[j]),
            decreases v@.len() - i,
        {
            if v[i].id == id && v[i].status == SuspensionStatus::Active {
                proof {
                    lemma_first_match_at(v@, active_suspension(id), i as int);
                }
                return Some(i);
            }
            i = i + 1;
        }
        proof {
            lemma_first_match(v@, active_suspension(id));
        }
        None
    }

    fn find_appeal(&self, id: u64) -> (r: Option<usize>)
        ensures
            opt_index(r) == first_match(self.community.appeals@, appeal_is(id)),
            r matches Some(i) ==> i < self.community.appeals@.len(),
    {
        let v = &self.community.appeals;
        let mut i: usize = 0;
        while i < v.len()
            invariant
                v == &self.community.appeals,
                i <= v@.len(),
                forall|j: int| 0 <= j < i ==> !appeal_is(id)(#[trigger] v@[j]),
            decreases v@.len() - i,
        {
            if v[i].id == id {
                proof {
                    lemma_first_match_at(v@, appeal_is(id), i as int);
                }
                return Some(i);
            }
            i = i + 1;
        }
        proof {
            lemma_first_match(v@, appeal_is(id));
        }
        None
    }

    /// Files a report from the caller about some content.
    pub fn report_content(
        &mut self,
        caller: String,
        target_type: ReportTargetType,
        target_id: String,
        reason: String,
        details: Option<String>,
        now: u64,
    ) -> (r: Option<Report>)
        requires
            old(self).community.next_report_id < u64::MAX,
        ensures
            r matches Some(rep) && rep == (Report {
                id: old(self).community.next_report_id,
                reporter: caller,
                target_type,
                target_id,
                reason,
                details,
                status: ReportStatus::Pending,
                created_at: now,
                reviewed_by: None,
                reviewed_at: None,
                resolution_notes: None,
            }) && final(self).community.reports@ == old(self).community.reports@.push(rep),
            final(self).community == (Community {
                reports: final(self).community.reports,
                next_report_id: (old(self).community.next_report_id + 1) as u64,
                ..old(self).community
            }),
            *final(self) == (Store { community: final(self).community, ..*old(self) }),
    {
        let id = self.community.next_report_id;
        self.community.next_report_id = id + 1;
        let rep = Report {
            id,
            reporter: caller,
            target_type,
            target_id,
            reason,
            details,
            status: ReportStatus::Pending,
            created_at: now,
            reviewed_by: None,
            reviewed_at: None,
            resolution_notes: None,
        };
        let result = rep.clone();
        self.community.reports.push(rep);
        Some(result)
    }

    /// Every report, oldest first.
    pub fn list_reports(&self) -> (r: Vec<Report>)
        ensures
            r@ == self.community.reports@,
    {
        self.community.reports.clone()
    }

    /// Lets an administrator settle a report, and audits it. Fails, changing
    /// nothing, when the caller is no administrator or the report is unknown.
    pub fn review_report(
        &mut self,
        caller: String,
        report_id: u64,
        status: ReportStatus,
        resolution_notes: Option<String>,
        now: u64,
    ) -> (r: bool)
        requires
            old(self).wf(),
            old(self).community.next_audit_id < u64::MAX,
        ensures
            final(self).wf(),
            ({
                let s = old(self).community.reports@;
                let k = first_match(s, report_is(report_id));
                &&& r == (admin_in(old(self).community.users@, caller@) && k >= 0)
                &&& !r ==> *final(self) == *old(self)
                &&& r ==> {
                    &&& final(self).community.reports@ == s.update(
                        k,
                        Report {
                            status,
                            reviewed_by: Some(caller),
                            reviewed_at: Some(now),
                            resolution_notes,
                            ..s[k]
                        },
                    )
                    &&& audited_once(
                        &(Community { reports: final(self).community.reports, ..old(self).community }),
                        &final(self).community,
                        caller@,
                        "review_report"@,
                        s[k].target_type.spec_name(),
                        s[k].target_id@,
                        report_reviewed(report_id, status),
                        now,
                    )
                    &&& *final(self) == (Store { community: final(self).community, ..*old(self) })
                }
            }),
    {
        if !self.is_admin(&caller) {
            return false;
        }
        let i = match self.find_report(report_id) {
            Some(i) => i,
            None => {
                return false;
            },
        };
        let mut rep = self.community.reports[i].clone();
        rep.status = status;
        rep.reviewed_by = Some(caller.clone());
        rep.reviewed_at = Some(now);
        rep.resolution_notes = resolution_notes;
        let kind = rep.target_type.name();
        let target = rep.target_id.clone();
        self.community.reports.set(i, rep);
        let number = to_decimal(report_id);
        let head = join3("Report ", number.as_str(), " reviewed: ");
        let details = join2(head.as_str(), status.name());
        self.log_admin_action(
            caller.as_str(),
            "review_report",
            kind,
            target.as_str(),
            details.as_str(),
            now,
        );
        true
    }

    /// Sets the licence of a track, replacing any it had.
    pub fn set_track_license(
        &mut self,
        track_id: u64,
        license_type: LicenseType,
        terms: Option<String>,
        contract_text: Option<String>,
        now: u64,
    ) -> (r: Option<TrackLicense>)
        ensures
            ({
                let s = old(self).community.licenses@;
                let k = first_match(s, license_of(track_id));
                &&& r matches Some(l) && l == (TrackLicense {
                    track_id,
                    license_type,
                    terms,
                    contract_text,
                    issued_at: now,
                })
                &&& final(self).community.licenses@ == if k >= 0 {
                    s.update(k, r->0)
                } else {
                    s.push(r->0)
                }
            }),
            final(self).community == (Community {
                licenses: final(self).community.licenses,
                ..old(self).community
            }),
            *final(self) == (Store { community: final(self).community, ..*old(self) }),
    {
        let license = TrackLicense { track_id, license_type, terms, contract_text, issued_at: now };
        let result = license.clone();
        match self.find_license(track_id) {
            Some(i) => {
                self.community.licenses.set(i, license);
            },
            None => {
                self.community.licenses.push(license);
            },
        }
        Some(result)
    }

    /// The licence of a track.
    pub fn get_track_license(&self, track_id: u64) -> (r: Option<TrackLicense>)
        ensures
            ({
                let s = self.community.licenses@;
                let k = first_match(s, license_of(track_id));
                r == if k >= 0 {
                    Some(s[k])
                } else {
                    None
                }
            }),
    {
        match self.find_license(track_id) {
            Some(i) => Some(self.community.licenses[i].clone()),
            None => None,
        }
    }

    /// Whether the caller may make another call: a principal seen for the first
    /// time may; one whose window is over starts a new window; otherwise it may
    /// while it made fewer than `max_calls` calls in the window.
    pub fn check_rate_limit(&mut self, caller: String, max_calls: u32, window_secs: u64, now: u64) -> (r:
        bool)
        requires
            ({
                let s = old(self).community.rate_limits@;
                let k = first_match(s, limit_of(caller@));
                k >= 0 ==> s[k].window_start <= now
            }),
        ensures
            ({
                let s = old(self).community.rate_limits@;
                let k = first_match(s, limit_of(caller@));
                if k < 0 {
                    &&& r
                    &&& final(self).community.rate_limits@.len() == s.len() + 1
                    &&& final(self).community.rate_limits@.drop_last() == s
                    &&& final(self).community.rate_limits@.last().principal == caller
                    &&& final(self).community.rate_limits@.last().last_call == now
                    &&& final(self).community.rate_limits@.last().call_count == 1
                    &&& final(self).community.rate_limits@.last().window_start == now
                } else if now - s[k].window_start > window_secs {
                    &&& r
                    &&& final(self).community.rate_limits@.len() == s.len()
                    &&& forall|j: int| 0 <= j < s.len() && j != k ==> final(self).community.rate_limits@[j] == s[j]
                    &&& final(self).community.rate_limits@[k].principal@ == s[k].principal@
                    &&& final(self).community.rate_limits@[k].last_call == s[k].last_call
                    &&& final(self).community.rate_limits@[k].call_count == 1
                    &&& final(self).community.rate_limits@[k].window_start == now
                } else if s[k].call_count < max_calls {
                    &&& r
                    &&& final(self).community.rate_limits@.len() == s.len()
                    &&& forall|j: int| 0 <= j < s.len() && j != k ==> final(self).community.rate_limits@[j] == s[j]
                    &&& final(self).community.rate_limits@[k].principal@ == s[k].principal@
                    &&& final(self).community.rate_limits@[k].last_call == s[k].last_call
                    &&& final(self).community.rate_limits@[k].call_count == s[k].call_count + 1
                    &&& final(self).community.rate_limits@[k].window_start == s[k].window_start
                } else {
                    &&& !r
                    &&& final(self).community.rate_limits@ == s
                }
            }),
            final(self).community == (Community {
                rate_limits: final(self).community.rate_limits,
                ..old(self).community
            }),
            *final(self) == (Store { community: final(self).community, ..*old(self) }),
    {
        let i = match self.find_limit(&caller) {
            Some(i) => i,
            None => {
                self.community.rate_limits.push(
                    RateLimitEntry { principal: caller, last_call: now, call_count: 1, window_start: now },
                );
                proof {
                    assert(self.community.rate_limits@.drop_last() =~= old(self).community.rate_limits@);
                }
                return true;
            },
        };
        let v = &self.community.rate_limits;
        let window_start = v[i].window_start;
        let call_count = v[i].call_count;
        if now - window_start > window_secs {
            let e = RateLimitEntry {
                principal: v[i].principal.clone(),
                last_call: v[i].last_call,
                call_count: 1,
                window_start: now,
            };
            self.community.rate_limits.set(i, e);
            true
        } else if call_count < max_calls {
            let e = RateLimitEntry {
                principal: v[i].principal.clone(),
                last_call: v[i].last_call,
                call_count: call_count + 1,
                window_start,
            };
            self.community.rate_limits.set(i, e);
            true
        } else {
            false
        }
    }

    /// Flags content for an administrator to review.
    pub fn flag_content_for_moderation(
        &mut self,
        caller: String,
        target_type: ModerationTargetType,
        target_id: String,
        reason: String,
        now: u64,
    ) -> (r: Option<ModerationQueueItem>)
        requires
            old(self).community.next_moderation_id < u64::MAX,
        ensures
            r matches Some(item) && item == (ModerationQueueItem {
                id: old(self).community.next_moderation_id,
                target_type,
                target_id,
                flagged_by: Some(caller),
                reason,
                status: ModerationStatus::Pending,
                created_at: now,
                reviewed_by: None,
                reviewed_at: None,
                notes: None,
            }) && final(self).community.moderation_queue@ == old(self).community.moderation_queue@.push(
                item,
            ),
            final(self).community == (Community {
                moderation_queue: final(self).community.moderation_queue,
                next_moderation_id: (old(self).community.next_moderation_id + 1) as u64,
                ..old(self).community
            }),
            *final(self) == (Store { community: final(self).community, ..*old(self) }),
    {
        let id = self.community.next_moderation_id;
        self.community.next_moderation_id = id + 1;
        let item = ModerationQueueItem {
            id,
            target_type,
            target_id,
            flagged_by: Some(caller),
            reason,
            status: ModerationStatus::Pending,
            created_at: now,
            reviewed_by: None,
            reviewed_at: None,
            notes: None,
        };
        let result = item.clone();
        self.community.moderation_queue.push(item);
        Some(result)
    }

    /// Every flagged item, oldest first.
    pub fn list_moderation_queue(&self) -> (r: Vec<ModerationQueueItem>)
        ensures
            r@ == self.community.moderation_queue@,
    {
        self.community.moderation_queue.clone()
    }

    /// Lets an administrator settle a flagged item, and audits it. Fails,
    /// changing nothing, when the caller is no administrator or the item is
    /// unknown.
    pub fn review_moderation_item(
        &mut self,
        caller: String,
        item_id: u64,
        status: ModerationStatus,
        notes: Option<String>,
        now: u64,
    ) -> (r: bool)
        requires
            old(self).wf(),
            old(self).community.next_audit_id < u64::MAX,
        ensures
            final(self).wf(),
            ({
                let s = old(self).community.moderation_queue@;
                let k = first_match(s, item_is(item_id));
                &&& r == (admin_in(old(self).community.users@, caller@) && k >= 0)
                &&& !r ==> *final(self) == *old(self)
                &&& r ==> {
                    &&& final(self).community.moderation_queue@ == s.update(
                        k,
                        ModerationQueueItem {
                            status,
                            reviewed_by: Some(caller),
                            reviewed_at: Some(now),
                            notes,
                            ..s[k]
                        },
                    )
                    &&& audited_once(
                        &(Community {
                            moderation_queue: final(self).community.moderation_queue,
                            ..old(self).community
                        }),
                        &final(self).community,
                        caller@,
                        "review_moderation_item"@,
                        s[k].target_type.spec_name(),
                        s[k].target_id@,
                        item_reviewed(item_id, status),
                        now,
                    )
                    &&& *final(self) == (Store { community: final(self).community, ..*old(self) })
                }
            }),
    {
        if !self.is_admin(&caller) {
            return false;
        }
        let i = match self.find_item(item_id) {
            Some(i) => i,
            None => {
                return false;
            },
        };
        let mut item = self.community.moderation_queue[i].clone();
        item.status = status;
        item.reviewed_by = Some(caller.clone());
        item.reviewed_at = Some(now);
        item.notes = notes;
        let kind = item.target_type.name();
        let target = item.target_id.clone();
        self.community.moderation_queue.set(i, item);
        let number = to_decimal(item_id);
        let head = join3("Moderation item ", number.as_str(), " reviewed: ");
        let details = join2(head.as_str(), status.name());
        self.log_admin_action(
            caller.as_str(),
            "review_moderation_item",
            kind,
            target.as_str(),
            details.as_str(),
            now,
        );
        true
    }

    /// Lets an administrator suspend a user, an artist or a track, and audits it.
    /// Fails, changing nothing, when the caller is no administrator.
    pub fn suspend_target(
        &mut self,
        caller: String,
        target_type: SuspensionTargetType,
        target_id: String,
        reason: String,
        duration_secs: Option<u64>,
        now: u64,
    ) -> (r: Option<Suspension>)
        requires
            old(self).wf(),
            old(self).community.next_audit_id < u64::MAX,
            old(self).community.next_suspension_id < u64::MAX,
        ensures
            final(self).wf(),
            r is Some == admin_in(old(self).community.users@, caller@),
            r is None ==> *final(self) == *old(self),
            r matches Some(sus) ==> {
                &&& sus == Suspension {
                    id: old(self).community.next_suspension_id,
                    target_type,
                    target_id,
                    reason,
                    imposed_by: caller,
                    imposed_at: now,
                    duration_secs,
                    status: SuspensionStatus::Active,
                    lifted_by: None,
                    lifted_at: None,
                    notes: None,
                }
                &&& final(self).community.suspensions@ == old(self).community.suspensions@.push(sus)
                &&& audited_once(
                    &(Community {
                        suspensions: final(self).community.suspensions,
                        next_suspension_id: (old(self).community.next_suspension_id + 1) as u64,
                        ..old(self).community
                    }),
                    &final(self).community,
                    caller@,
                    "suspend_target"@,
                    target_type.spec_name(),
                    target_id@,
                    "Suspension imposed: "@ + reason@,
                    now,
                )
                &&& *final(self) == (Store { community: final(self).community, ..*old(self) })
            },
    {
        if !self.is_admin(&caller) {
            return None;
        }
        let id = self.community.next_suspension_id;
        self.community.next_suspension_id = id + 1;
        let details = join2("Suspension imposed: ", reason.as_str());
        let target = target_id.clone();
        let sus = Suspension {
            id,
            target_type,
            target_id,
            reason,
            imposed_by: caller.clone(),
            imposed_at: now,
            duration_secs,
            status: SuspensionStatus::Active,
            lifted_by: None,
            lifted_at: None,
            notes: None,
        };
        let result = sus.clone();
        self.community.suspensions.push(sus);
        self.log_admin_action(
            caller.as_str(),
            "suspend_target",
            target_type.name(),
            target.as_str(),
            details.as_str(),
            now,
        );
        Some(result)
    }

    /// Lets an administrator lift an active suspension, and audits it. Fails,
    /// changing nothing, when the caller is no administrator or no active
    /// suspension has this id.
    pub fn lift_suspension(&mut self, caller: String, suspension_id: u64, notes: Option<String>, now: u64) -> (r:
        bool)
        requires
            old(self).wf(),
            old(self).community.next_audit_id < u64::MAX,
        ensures
            final(self).wf(),
            ({
                let s = old(self).community.suspensions@;
                let k = first_match(s, active_suspension(suspension_id));
                &&& r == (admin_in(old(self).community.users@, caller@) && k >= 0)
                &&& !r ==> *final(self) == *old(self)
                &&& r ==> {
                    &&& final(self).community.suspensions@ == s.update(
                        k,
                        Suspension {
                            status: SuspensionStatus::Lifted,
                            lifted_by: Some(caller),
                            lifted_at: Some(now),
                            notes,
                            ..s[k]
                        },
                    )
                    &&& audited_once(
                        &(Community {
                            suspensions: final(self).community.suspensions,
                            ..old(self).community
                        }),
                        &final(self).community,
                        caller@,
                        "lift_suspension"@,
                        s[k].target_type.spec_name(),
                        s[k].target_id@,
                        suspension_lifted(suspension_id),
                        now,
                    )
                    &&& *final(self) == (Store { community: final(self).community, ..*old(self) })
                }
            }),
    {
        if !self.is_admin(&caller) {
            return false;
        }
        let i = match self.find_active_suspension(suspension_id) {
            Some(i) => i,
            None => {
                return false;
            },
        };
        let mut sus = self.community.suspensions[i].clone();
        sus.status = SuspensionStatus::Lifted;
        sus.lifted_by = Some(caller.clone());
        sus.lifted_at = Some(now);
        sus.notes = notes;
        let kind = sus.target_type.name();
        let target = sus.target_id.clone();
        self.community.suspensions.set(i, sus);
        let number = to_decimal(suspension_id);
        let details = join3("Suspension ", number.as_str(), " lifted");
        self.log_admin_action(
            caller.as_str(),
            "lift_suspension",
            kind,
            target.as_str(),
            details.as_str(),
            now,
        );
        true
    }

    /// Every suspension, oldest first.
    pub fn list_suspensions(&self) -> (r: Vec<Suspension>)
        ensures
            r@ == self.community.suspensions@,
    {
        self.community.suspensions.clone()
    }

    /// Files an appeal from the caller against a suspension.
    pub fn submit_suspension_appeal(
        &mut self,
        caller: String,
        suspension_id: u64,
        content: String,
        now: u64,
    ) -> (r: Option<SuspensionAppeal>)
        requires
            old(self).community.next_appeal_id < u64::MAX,
        ensures
            r matches Some(a) && a == (SuspensionAppeal {
                id: old(self).community.next_appeal_id,
                suspension_id,
                submitted_by: caller,
                submitted_at: now,
                content,
                status: AppealStatus::Pending,
                reviewed_by: None,
                reviewed_at: None,
                notes: None,
            }) && final(self).community.appeals@ == old(self).community.appeals@.push(a),
            final(self).community == (Community {
                appeals: final(self).community.appeals,
                next_appeal_id: (old(self).community.next_appeal_id + 1) as u64,
                ..old(self).community
            }),
            *final(self) == (Store { community: final(self).community, ..*old(self) }),
    {
        let id = self.community.next_appeal_id;
        self.community.next_appeal_id = id + 1;
        let a = SuspensionAppeal {
            id,
            suspension_id,
            submitted_by: caller,
            submitted_at: now,
            content,
            status: AppealStatus::Pending,
            reviewed_by: None,
            reviewed_at: None,
            notes: None,
        };
        let result = a.clone();
        self.community.appeals.push(a);
        Some(result)
    }

    /// Lets an administrator decide an appeal, and audits it. Fails, changing
    /// nothing, when the caller is no administrator or the appeal is unknown.
    pub fn review_suspension_appeal(
        &mut self,
        caller: String,
        appeal_id: u64,
        status: AppealStatus,
        notes: Option<String>,
        now: u64,
    ) -> (r: bool)
        requires
            old(self).wf(),
            old(self).community.next_audit_id < u64::MAX,
        ensures
            final(self).wf(),
            ({
                let s = old(self).community.appeals@;
                let k = first_match(s, appeal_is(appeal_id));
                &&& r == (admin_in(old(self).community.users@, caller@) && k >= 0)
                &&& !r ==> *final(self) == *old(self)
                &&& r ==> {
                    &&& final(self).community.appeals@ == s.update(
                        k,
                        SuspensionAppeal {
                            status,
                            reviewed_by: Some(caller),
                            reviewed_at: Some(now),
                            notes,
                            ..s[k]
                        },
                    )
                    &&& audited_once(
                        &(Community { appeals: final(self).community.appeals, ..old(self).community }),
                        &final(self).community,
                        caller@,
                        "review_suspension_appeal"@,
                        "SuspensionAppeal"@,
                        decimal(s[k].suspension_id as nat),
                        appeal_reviewed(appeal_id, status),
                        now,
                    )
                    &&& *final(self) == (Store { community: final(self).community, ..*old(self) })
                }
            }),
    {
        if !self.is_admin(&caller) {
            return false;
        }
        let i = match self.find_appeal(appeal_id) {
            Some(i) => i,
            None => {
                return false;
            },
        };
        let mut a = self.community.appeals[i].clone();
        a.status = status;
        a.reviewed_by = Some(caller.clone());
        a.reviewed_at = Some(now);
        a.notes = notes;
        let suspension_text = to_decimal(a.suspension_id);
        self.community.appeals.set(i, a);
        let number = to_decimal(appeal_id);
        let head = join3("Appeal ", number.as_str(), " reviewed: ");
        let details = join2(head.as_str(), status.name());
        self.log_admin_action(
            caller.as_str(),
            "review_suspension_appeal",
            "SuspensionAppeal",
            suspension_text.as_str(),
            details.as_str(),
            now,
        );
        true
    }

    /// Every appeal, oldest first.
    pub fn list_suspension_appeals(&self) -> (r: Vec<SuspensionAppeal>)
        ensures
            r@ == self.community.appeals@,
    {
        self.community.appeals.clone()
    }
}

} // verus!
