//! State of a collaborative music platform: artists and tracks, versions of
//! tracks, revenue splits and royalties, collaboration requests and tasks, and
//! around them users, follows, playlists, messages and moderation.
//!
//! Everything lives in one [`Store`]; each operation is a method that takes the
//! caller's principal (in its textual form) and the current time as arguments.
use vstd::prelude::*;

pub mod activity;
pub mod artists;
pub mod catalog;
pub mod collab;
pub mod community;
pub mod laws;
pub mod moderation;
pub mod moderation_types;
pub mod pairs;
pub mod royalties;
pub mod search;
pub mod social;
pub mod store;
pub mod text;
pub mod tracks;
pub mod types;
pub mod users;

pub use community::{
    AuditLogEntry, Community, FollowedArtists, FollowedTracks, Message, Notification,
    PlayDownloadCount, Playlist, User, UserRole,
};
pub use moderation_types::{
    AppealStatus, LicenseType, ModerationQueueItem, ModerationStatus, ModerationTargetType,
    RateLimitEntry, Report, ReportStatus, ReportTargetType, Suspension, SuspensionAppeal,
    SuspensionStatus, SuspensionTargetType, TrackLicense,
};
pub use search::matches_lowered;
pub use store::{Store, VersionHistory};
pub use text::greet;
pub use types::{
    Activity, Artist, CollabRequest, CollabRequestStatus, Comment, Payment, Split, Task,
    TaskStatus, Track, TrackAnalytics, TrackRole, TrackVersion,
    TrackVisibility, UserActivity,
};

verus! {

} // verus!
