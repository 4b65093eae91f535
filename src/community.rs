use vstd::prelude::*;
use crate::moderation_types::{
    ModerationQueueItem, RateLimitEntry, Report, Suspension, SuspensionAppeal, TrackLicense,
};

verus! {

#[derive(Clone, Copy, Debug, PartialEq, Eq, Structural)]
pub enum UserRole {
    User,
    Admin,
    Moderator,
}

/// A user profile, keyed by the textual form of the user's principal.
#[derive(Debug)]
pub struct User {
    pub principal: String,
    pub username: String,
    pub bio: Option<String>,
    pub avatar_url: Option<String>,
    pub role: UserRole,
}

impl Clone for User {
    fn clone(&self) -> (r: Self)
        ensures
            r == *self,
    {
        User {
            principal: self.principal.clone(),
            username: self.username.clone(),
            bio: self.bio.clone(),
            avatar_url: self.avatar_url.clone(),
            role: self.role,
        }
    }
}

/// A record of something an administrator did.
#[derive(Debug)]
pub struct AuditLogEntry {
    pub id: u64,
    pub admin: String,
    pub action: String,
    pub target_type: String,
    pub target_id: String,
    pub timestamp: u64,
    pub details: Option<String>,
}

impl Clone for AuditLogEntry {
    fn clone(&self) -> (r: Self)
        ensures
            r == *self,
    {
        AuditLogEntry {
            id: self.id,
            admin: self.admin.clone(),
            action: self.action.clone(),
            target_type: self.target_type.clone(),
            target_id: self.target_id.clone(),
            timestamp: self.timestamp,
            details: self.details.clone(),
        }
    }
}

/// A message sent to a user.
#[derive(Debug)]
pub struct Notification {
    pub id: u64,
    pub user_principal: String,
    pub message: String,
    pub timestamp: u64,
    pub read: bool,
}

impl Clone for Notification {
    fn clone(&self) -> (r: Self)
        ensures
            r == *self,
    {
        Notification {
            id: self.id,
            user_principal: self.user_principal.clone(),
            message: self.message.clone(),
            timestamp: self.timestamp,
            read: self.read,
        }
    }
}

/// The principals of the artists that one principal follows.
#[derive(Debug)]
pub struct FollowedArtists {
    pub follower: String,
    pub artists: Vec<String>,
}

pub struct FollowedArtistsView {
    pub follower: String,
    pub artists: Seq<String>,
}

impl View for FollowedArtists {
    type V = FollowedArtistsView;

    open spec fn view(&self) -> FollowedArtistsView {
        FollowedArtistsView { follower: self.follower, artists: self.artists@ }
    }
}

/// The tracks that one principal follows.
#[derive(Debug)]
pub struct FollowedTracks {
    pub follower: String,
    pub tracks: Vec<u64>,
}

pub struct FollowedTracksView {
    pub follower: String,
    pub tracks: Seq<u64>,
}

impl View for FollowedTracks {
    type V = FollowedTracksView;

    open spec fn view(&self) -> FollowedTracksView {
        FollowedTracksView { follower: self.follower, tracks: self.tracks@ }
    }
}

/// A named list of tracks kept by its owner.
#[derive(Debug)]
pub struct Playlist {
    pub id: u64,
    pub owner: String,
    pub name: String,
    pub description: Option<String>,
    pub track_ids: Vec<u64>,
    pub created_at: u64,
    pub updated_at: u64,
}

pub struct PlaylistView {
    pub id: u64,
    pub owner: String,
    pub name: String,
    pub description: Option<String>,
    pub track_ids: Seq<u64>,
    pub created_at: u64,
    pub updated_at: u64,
}

impl View for Playlist {
    type V = PlaylistView;

    open spec fn view(&self) -> PlaylistView {
        PlaylistView {
            id: self.id,
            owner: self.owner,
            name: self.name,
            description: self.description,
            track_ids: self.track_ids@,
            created_at: self.created_at,
            updated_at: self.updated_at,
        }
    }
}

impl Clone for Playlist {
    fn clone(&self) -> (r: Self)
        ensures
            r@ == self@,
    {
        Playlist {
            id: self.id,
            owner: self.owner.clone(),
            name: self.name.clone(),
            description: self.description.clone(),
            track_ids: self.track_ids.clone(),
            created_at: self.created_at,
            updated_at: self.updated_at,
        }
    }
}

/// How often one principal played and downloaded one track.
#[derive(Debug)]
pub struct PlayDownloadCount {
    pub principal: String,
    pub track_id: u64,
    pub play_count: u64,
    pub download_count: u64,
}

impl Clone for PlayDownloadCount {
    fn clone(&self) -> (r: Self)
        ensures
            r == *self,
    {
        PlayDownloadCount {
            principal: self.principal.clone(),
            track_id: self.track_id,
            play_count: self.play_count,
            download_count: self.download_count,
        }
    }
}

/// A direct message between two principals.
#[derive(Debug)]
pub struct Message {
    pub id: u64,
    pub from: String,
    pub to: String,
    pub content: String,
    pub timestamp: u64,
    pub read: bool,
}

impl Clone for Message {
    fn clone(&self) -> (r: Self)
        ensures
            r == *self,
    {
        Message {
            id: self.id,
            from: self.from.clone(),
            to: self.to.clone(),
            content: self.content.clone(),
            timestamp: self.timestamp,
            read: self.read,
        }
    }
}

/// Users and what surrounds them: profiles, the audit trail of administrators,
/// and the counters that hand out ids.
#[derive(Debug)]
pub struct Community {
    pub users: Vec<User>,
    pub audit_log: Vec<AuditLogEntry>,
    pub next_audit_id: u64,
    pub notifications: Vec<Notification>,
    pub next_notification_id: u64,
    pub followed_artists: Vec<FollowedArtists>,
    pub followed_tracks: Vec<FollowedTracks>,
    pub playlists: Vec<Playlist>,
    pub next_playlist_id: u64,
    pub play_counts: Vec<PlayDownloadCount>,
    pub messages: Vec<Message>,
    pub next_message_id: u64,
    pub reports: Vec<Report>,
    pub next_report_id: u64,
    pub licenses: Vec<TrackLicense>,
    pub rate_limits: Vec<RateLimitEntry>,
    pub moderation_queue: Vec<ModerationQueueItem>,
    pub next_moderation_id: u64,
    pub suspensions: Vec<Suspension>,
    pub next_suspension_id: u64,
    pub appeals: Vec<SuspensionAppeal>,
    pub next_appeal_id: u64,
}

impl Community {
    /// No users and an empty audit trail; counters start at 1.
    pub fn new() -> (r: Community)
        ensures
            r.users@.len() == 0,
            r.audit_log@.len() == 0,
            r.next_audit_id == 1,
            r.notifications@.len() == 0,
            r.next_notification_id == 1,
            r.followed_artists@.len() == 0,
            r.followed_tracks@.len() == 0,
            r.playlists@.len() == 0,
            r.next_playlist_id == 1,
            r.play_counts@.len() == 0,
            r.messages@.len() == 0,
            r.next_message_id == 1,
            r.reports@.len() == 0,
            r.next_report_id == 1,
            r.licenses@.len() == 0,
            r.rate_limits@.len() == 0,
            r.moderation_queue@.len() == 0,
            r.next_moderation_id == 1,
            r.suspensions@.len() == 0,
            r.next_suspension_id == 1,
            r.appeals@.len() == 0,
            r.next_appeal_id == 1,
    {
        Community {
            users: Vec::new(),
            audit_log: Vec::new(),
            next_audit_id: 1,
            notifications: Vec::new(),
            next_notification_id: 1,
            followed_artists: Vec::new(),
            followed_tracks: Vec::new(),
            playlists: Vec::new(),
            next_playlist_id: 1,
            play_counts: Vec::new(),
            messages: Vec::new(),
            next_message_id: 1,
            reports: Vec::new(),
            next_report_id: 1,
            licenses: Vec::new(),
            rate_limits: Vec::new(),
            moderation_queue: Vec::new(),
            next_moderation_id: 1,
            suspensions: Vec::new(),
            next_suspension_id: 1,
            appeals: Vec::new(),
            next_appeal_id: 1,
        }
    }
}

} // verus!
