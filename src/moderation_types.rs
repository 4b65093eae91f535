use vstd::prelude::*;

verus! {

#[derive(Clone, Copy, Debug, PartialEq, Eq, Structural)]
pub enum ReportTargetType {
    User,
    Artist,
    Track,
    Comment,
}

impl ReportTargetType {
    pub open spec fn spec_name(&self) -> Seq<char> {
        match self {
            ReportTargetType::User => "User"@,
            ReportTargetType::Artist => "Artist"@,
            ReportTargetType::Track => "Track"@,
            ReportTargetType::Comment => "Comment"@,
        }
    }

    /// The variant's name.
    pub fn name(&self) -> (r: &'static str)
        ensures
            r@ == self.spec_name(),
    {
        match self {
            ReportTargetType::User => "User",
            ReportTargetType::Artist => "Artist",
            ReportTargetType::Track => "Track",
            ReportTargetType::Comment => "Comment",
        }
    }
}

#[derive(Clone, Copy, Debug, PartialEq, Eq, Structural)]
pub enum ReportStatus {
    Pending,
    Reviewed,
    Dismissed,
    Resolved,
}

impl ReportStatus {
    pub open spec fn spec_name(&self) -> Seq<char> {
        match self {
            ReportStatus::Pending => "Pending"@,
            ReportStatus::Reviewed => "Reviewed"@,
            ReportStatus::Dismissed => "Dismissed"@,
            ReportStatus::Resolved => "Resolved"@,
        }
    }

    /// The variant's name.
    pub fn name(&self) -> (r: &'static str)
        ensures
            r@ == self.spec_name(),
    {
        match self {
            ReportStatus::Pending => "Pending",
            ReportStatus::Reviewed => "Reviewed",
            ReportStatus::Dismissed => "Dismissed",
            ReportStatus::Resolved => "Resolved",
        }
    }
}

/// A user's report about some content.
#[derive(Debug)]
pub struct Report {
    pub id: u64,
    pub reporter: String,
    pub target_type: ReportTargetType,
    pub target_id: String,
    pub reason: String,
    pub details: Option<String>,
    pub status: ReportStatus,
    pub created_at: u64,
    pub reviewed_by: Option<String>,
    pub reviewed_at: Option<u64>,
    pub resolution_notes: Option<String>,
}

impl Clone for Report {
    fn clone(&self) -> (r: Self)
        ensures
            r == *self,
    {
        Report {
            id: self.id,
            reporter: self.reporter.clone(),
            target_type: self.target_type,
            target_id: self.target_id.clone(),
            reason: self.reason.clone(),
            details: self.details.clone(),
            status: self.status,
            created_at: self.created_at,
            reviewed_by: self.reviewed_by.clone(),
            reviewed_at: self.reviewed_at,
            resolution_notes: self.resolution_notes.clone(),
        }
    }
}

#[derive(Clone, Copy, Debug, PartialEq, Eq, Structural)]
pub enum LicenseType {
    AllRightsReserved,
    CreativeCommons,
    Custom,
}

/// The licence under which a track is offered.
#[derive(Debug)]
pub struct TrackLicense {
    pub track_id: u64,
    pub license_type: LicenseType,
    pub terms: Option<String>,
    pub contract_text: Option<String>,
    pub issued_at: u64,
}

impl Clone for TrackLicense {
    fn clone(&self) -> (r: Self)
        ensures
            r == *self,
    {
        TrackLicense {
            track_id: self.track_id,
            license_type: self.license_type,
            terms: self.terms.clone(),
            contract_text: self.contract_text.clone(),
            issued_at: self.issued_at,
        }
    }
}

/// How many calls a principal made in its current window.
#[derive(Debug)]
pub struct RateLimitEntry {
    pub principal: String,
    pub last_call: u64,
    pub call_count: u32,
    pub window_start: u64,
}

#[derive(Clone, Copy, Debug, PartialEq, Eq, Structural)]
pub enum ModerationTargetType {
    Track,
    Comment,
}

impl ModerationTargetType {
    pub open spec fn spec_name(&self) -> Seq<char> {
        match self {
            ModerationTargetType::Track => "Track"@,
            ModerationTargetType::Comment => "Comment"@,
        }
    }

    /// The variant's name.
    pub fn name(&self) -> (r: &'static str)
        ensures
            r@ == self.spec_name(),
    {
        match self {
            ModerationTargetType::Track => "Track",
            ModerationTargetType::Comment => "Comment",
        }
    }
}

#[derive(Clone, Copy, Debug, PartialEq, Eq, Structural)]
pub enum ModerationStatus {
    Pending,
    Approved,
    Removed,
}

impl ModerationStatus {
    pub open spec fn spec_name(&self) -> Seq<char> {
        match self {
            ModerationStatus::Pending => "Pending"@,
            ModerationStatus::Approved => "Approved"@,
            ModerationStatus::Removed => "Removed"@,
        }
    }

    /// The variant's name.
    pub fn name(&self) -> (r: &'static str)
        ensures
            r@ == self.spec_name(),
    {
        match self {
            ModerationStatus::Pending => "Pending",
            ModerationStatus::Approved => "Approved",
            ModerationStatus::Removed => "Removed",
        }
    }
}

/// Content flagged for an administrator to look at.
#[derive(Debug)]
pub struct ModerationQueueItem {
    pub id: u64,
    pub target_type: ModerationTargetType,
    pub target_id: String,
    pub flagged_by: Option<String>,
    pub reason: String,
    pub status: ModerationStatus,
    pub created_at: u64,
    pub reviewed_by: Option<String>,
    pub reviewed_at: Option<u64>,
    pub notes: Option<String>,
}

impl Clone for ModerationQueueItem {
    fn clone(&self) -> (r: Self)
        ensures
            r == *self,
    {
        ModerationQueueItem {
            id: self.id,
            target_type: self.target_type,
            target_id: self.target_id.clone(),
            flagged_by: self.flagged_by.clone(),
            reason: self.reason.clone(),
            status: self.status,
            created_at: self.created_at,
            reviewed_by: self.reviewed_by.clone(),
            reviewed_at: self.reviewed_at,
            notes: self.notes.clone(),
        }
    }
}

#[derive(Clone, Copy, Debug, PartialEq, Eq, Structural)]
pub enum SuspensionTargetType {
    User,
    Artist,
    Track,
}

impl SuspensionTargetType {
    pub open spec fn spec_name(&self) -> Seq<char> {
        match self {
            SuspensionTargetType::User => "User"@,
            SuspensionTargetType::Artist => "Artist"@,
            SuspensionTargetType::Track => "Track"@,
        }
    }

    /// The variant's name.
    pub fn name(&self) -> (r: &'static str)
        ensures
            r@ == self.spec_name(),
    {
        match self {
            SuspensionTargetType::User => "User",
            SuspensionTargetType::Artist => "Artist",
            SuspensionTargetType::Track => "Track",
        }
    }
}

#[derive(Clone, Copy, Debug, PartialEq, Eq, Structural)]
pub enum SuspensionStatus {
    Active,
    Lifted,
    Expired,
}

/// A suspension of a user, an artist or a track.
#[derive(Debug)]
pub struct Suspension {
    pub id: u64,
    pub target_type: SuspensionTargetType,
    pub target_id: String,
    pub reason: String,
    pub imposed_by: String,
    pub imposed_at: u64,
    pub duration_secs: Option<u64>,
    pub status: SuspensionStatus,
    pub lifted_by: Option<String>,
    pub lifted_at: Option<u64>,
    pub notes: Option<String>,
}

impl Clone for Suspension {
    fn clone(&self) -> (r: Self)
        ensures
            r == *self,
    {
        Suspension {
            id: self.id,
            target_type: self.target_type,
            target_id: self.target_id.clone(),
            reason: self.reason.clone(),
            imposed_by: self.imposed_by.clone(),
            imposed_at: self.imposed_at,
            duration_secs: self.duration_secs,
            status: self.status,
            lifted_by: self.lifted_by.clone(),
            lifted_at: self.lifted_at,
            notes: self.notes.clone(),
        }
    }
}

#[derive(Clone, Copy, Debug, PartialEq, Eq, Structural)]
pub enum AppealStatus {
    Pending,
    Approved,
    Denied,
}

impl AppealStatus {
    pub open spec fn spec_name(&self) -> Seq<char> {
        match self {
            AppealStatus::Pending => "Pending"@,
            AppealStatus::Approved => "Approved"@,
            AppealStatus::Denied => "Denied"@,
        }
    }

    /// The variant's name.
    pub fn name(&self) -> (r: &'static str)
        ensures
            r@ == self.spec_name(),
    {
        match self {
            AppealStatus::Pending => "Pending",
            AppealStatus::Approved => "Approved",
            AppealStatus::Denied => "Denied",
        }
    }
}

/// An appeal against a suspension.
#[derive(Debug)]
pub struct SuspensionAppeal {
    pub id: u64,
    pub suspension_id: u64,
    pub submitted_by: String,
    pub submitted_at: u64,
    pub content: String,
    pub status: AppealStatus,
    pub reviewed_by: Option<String>,
    pub reviewed_at: Option<u64>,
    pub notes: Option<String>,
}

impl Clone for SuspensionAppeal {
    fn clone(&self) -> (r: Self)
        ensures
            r == *self,
    {
        SuspensionAppeal {
            id: self.id,
            suspension_id: self.suspension_id,
            submitted_by: self.submitted_by.clone(),
            submitted_at: self.submitted_at,
            content: self.content.clone(),
            status: self.status,
            reviewed_by: self.reviewed_by.clone(),
            reviewed_at: self.reviewed_at,
            notes: self.notes.clone(),
        }
    }
}

} // verus!
