use vstd::prelude::*;

verus! {

/// Copies a vector of plain values element by element.
pub fn copy_vec<T: Copy>(v: &Vec<T>) -> (r: Vec<T>)
    ensures
        r@ == v@,
{
    let mut r: Vec<T> = Vec::new();
    let mut i: usize = 0;
    while i < v.len()
        invariant
            i <= v@.len(),
            r@ == v@.take(i as int),
        decreases v@.len() - i,
    {
        r.push(v[i]);
        i = i + 1;
        proof {
            assert(v@.take(i as int) == v@.take(i - 1).push(v@[i - 1]));
        }
    }
    proof {
        assert(v@.take(v@.len() as int) == v@);
    }
    r
}

/// Copies an optional vector of plain values.
pub fn copy_opt_vec<T: Copy>(v: &Option<Vec<T>>) -> (r: Option<Vec<T>>)
    ensures
        opt_seq(*v) == opt_seq(r),
{
    match v {
        Some(x) => Some(copy_vec(x)),
        None => None,
    }
}

/// The contents of an optional vector.
pub open spec fn opt_seq<T>(v: Option<Vec<T>>) -> Option<Seq<T>> {
    match v {
        Some(x) => Some(x@),
        None => None,
    }
}

/// A comment left on a track.
#[derive(Debug)]
pub struct Comment {
    pub commenter: u64,
    pub text: String,
}

impl Clone for Comment {
    fn clone(&self) -> (r: Self)
        ensures
            r == *self,
    {
        Comment { commenter: self.commenter, text: self.text.clone() }
    }
}

/// One entry of a track's revenue split: an artist and a percentage.
#[derive(Clone, Copy, Debug, PartialEq, Eq, Structural)]
pub struct Split {
    pub id: u64,
    pub pct: u8,
}

#[derive(Clone, Copy, Debug, PartialEq, Eq, Structural)]
pub enum TrackVisibility {
    Public,
    Private,
    InviteOnly,
}

#[derive(Clone, Copy, Debug, PartialEq, Eq, Structural)]
pub enum TrackRole {
    Owner,
    Collaborator,
    Viewer,
}

/// A payment made for a track.
#[derive(Clone, Copy, Debug, PartialEq, Eq, Structural)]
pub struct Payment {
    pub payer: u64,
    pub amount: u64,
    pub timestamp: u64,
}

#[derive(Debug)]
pub struct Track {
    pub id: u64,
    pub title: String,
    pub description: String,
    pub contributors: Vec<u64>,
    pub version: u32,
    pub splits: Option<Vec<Split>>,
    pub comments: Vec<Comment>,
    pub payments: Vec<Payment>,
    pub visibility: TrackVisibility,
    pub invited: Vec<u64>,
    pub roles: Vec<(u64, TrackRole)>,
    pub ratings: Vec<(u64, u8)>,
    pub tags: Vec<String>,
    pub genre: Option<String>,
    pub play_count: u64,
    pub downloadable: bool,
}

/// The mathematical value of a track: its vectors as sequences.
pub struct TrackView {
    pub id: u64,
    pub title: String,
    pub description: String,
    pub contributors: Seq<u64>,
    pub version: u32,
    pub splits: Option<Seq<Split>>,
    pub comments: Seq<Comment>,
    pub payments: Seq<Payment>,
    pub visibility: TrackVisibility,
    pub invited: Seq<u64>,
    pub roles: Seq<(u64, TrackRole)>,
    pub ratings: Seq<(u64, u8)>,
    pub tags: Seq<String>,
    pub genre: Option<String>,
    pub play_count: u64,
    pub downloadable: bool,
}

impl View for Track {
    type V = TrackView;

    open spec fn view(&self) -> TrackView {
        TrackView {
            id: self.id,
            title: self.title,
            description: self.description,
            contributors: self.contributors@,
            version: self.version,
            splits: opt_seq(self.splits),
            comments: self.comments@,
            payments: self.payments@,
            visibility: self.visibility,
            invited: self.invited@,
            roles: self.roles@,
            ratings: self.ratings@,
            tags: self.tags@,
            genre: self.genre,
            play_count: self.play_count,
            downloadable: self.downloadable,
        }
    }
}

impl Clone for Track {
    fn clone(&self) -> (r: Self)
        ensures
            r@ == self@,
    {
        Track {
            id: self.id,
            title: self.title.clone(),
            description: self.description.clone(),
            contributors: self.contributors.clone(),
            version: self.version,
            splits: copy_opt_vec(&self.splits),
            comments: self.comments.clone(),
            payments: copy_vec(&self.payments),
            visibility: self.visibility,
            invited: self.invited.clone(),
            roles: copy_vec(&self.roles),
            ratings: copy_vec(&self.ratings),
            tags: self.tags.clone(),
            genre: self.genre.clone(),
            play_count: self.play_count,
            downloadable: self.downloadable,
        }
    }
}

/// A snapshot of a track taken when a version is recorded.
#[derive(Debug)]
pub struct TrackVersion {
    pub version: u32,
    pub title: String,
    pub description: String,
    pub contributors: Vec<u64>,
}

pub struct TrackVersionView {
    pub version: u32,
    pub title: String,
    pub description: String,
    pub contributors: Seq<u64>,
}

impl View for TrackVersion {
    type V = TrackVersionView;

    open spec fn view(&self) -> TrackVersionView {
        TrackVersionView {
            version: self.version,
            title: self.title,
            description: self.description,
            contributors: self.contributors@,
        }
    }
}

impl Clone for TrackVersion {
    fn clone(&self) -> (r: Self)
        ensures
            r@ == self@,
    {
        TrackVersion {
            version: self.version,
            title: self.title.clone(),
            description: self.description.clone(),
            contributors: self.contributors.clone(),
        }
    }
}

/// A registered artist. The principal is held in its textual form.
#[derive(Debug)]
pub struct Artist {
    pub id: u64,
    pub name: String,
    pub bio: String,
    pub social: Option<String>,
    pub royalty_balance: u64,
    pub profile_image_url: Option<String>,
    pub links: Option<Vec<String>>,
    pub user_principal: String,
}

pub struct ArtistView {
    pub id: u64,
    pub name: String,
    pub bio: String,
    pub social: Option<String>,
    pub royalty_balance: u64,
    pub profile_image_url: Option<String>,
    pub links: Option<Seq<String>>,
    pub user_principal: String,
}

impl View for Artist {
    type V = ArtistView;

    open spec fn view(&self) -> ArtistView {
        ArtistView {
            id: self.id,
            name: self.name,
            bio: self.bio,
            social: self.social,
            royalty_balance: self.royalty_balance,
            profile_image_url: self.profile_image_url,
            links: opt_seq(self.links),
            user_principal: self.user_principal,
        }
    }
}

/// Copies an optional list of strings.
pub fn copy_opt_strings(v: &Option<Vec<String>>) -> (r: Option<Vec<String>>)
    ensures
        opt_seq(r) == opt_seq(*v),
{
    match v {
        Some(x) => Some(x.clone()),
        None => None,
    }
}

impl Clone for Artist {
    fn clone(&self) -> (r: Self)
        ensures
            r@ == self@,
    {
        Artist {
            id: self.id,
            name: self.name.clone(),
            bio: self.bio.clone(),
            social: self.social.clone(),
            royalty_balance: self.royalty_balance,
            profile_image_url: self.profile_image_url.clone(),
            links: copy_opt_strings(&self.links),
            user_principal: self.user_principal.clone(),
        }
    }
}

/// One entry of the activity log.
#[derive(Debug)]
pub struct Activity {
    pub user_id: u64,
    pub action: String,
    pub timestamp: u64,
    pub details: String,
}

impl Clone for Activity {
    fn clone(&self) -> (r: Self)
        ensures
            r == *self,
    {
        Activity {
            user_id: self.user_id,
            action: self.action.clone(),
            timestamp: self.timestamp,
            details: self.details.clone(),
        }
    }
}

/// One entry of the per-user activity log, keyed by a principal's textual form.
#[derive(Debug)]
pub struct UserActivity {
    pub principal: String,
    pub action: String,
    pub timestamp: u64,
    pub details: String,
}

impl Clone for UserActivity {
    fn clone(&self) -> (r: Self)
        ensures
            r == *self,
    {
        UserActivity {
            principal: self.principal.clone(),
            action: self.action.clone(),
            timestamp: self.timestamp,
            details: self.details.clone(),
        }
    }
}

#[derive(Clone, Copy, Debug, PartialEq, Eq, Structural)]
pub enum CollabRequestStatus {
    Pending,
    Accepted,
    Declined,
}

/// A request from one artist to another to collaborate on a track.
#[derive(Debug)]
pub struct CollabRequest {
    pub id: u64,
    pub from: u64,
    pub to: u64,
    pub track_id: u64,
    pub message: Option<String>,
    pub status: CollabRequestStatus,
    pub timestamp: u64,
}

impl Clone for CollabRequest {
    fn clone(&self) -> (r: Self)
        ensures
            r == *self,
    {
        CollabRequest {
            id: self.id,
            from: self.from,
            to: self.to,
            track_id: self.track_id,
            message: self.message.clone(),
            status: self.status,
            timestamp: self.timestamp,
        }
    }
}

#[derive(Clone, Copy, Debug, PartialEq, Eq, Structural)]
pub enum TaskStatus {
    Open,
    InProgress,
    Completed,
    Cancelled,
}

/// A unit of work on a track, assigned to an artist.
#[derive(Debug)]
pub struct Task {
    pub id: u64,
    pub track_id: u64,
    pub assigned_to: u64,
    pub description: String,
    pub status: TaskStatus,
    pub created_at: u64,
    pub updated_at: u64,
}

impl Clone for Task {
    fn clone(&self) -> (r: Self)
        ensures
            r == *self,
    {
        Task {
            id: self.id,
            track_id: self.track_id,
            assigned_to: self.assigned_to,
            description: self.description.clone(),
            status: self.status,
            created_at: self.created_at,
            updated_at: self.updated_at,
        }
    }
}

/// Figures derived from one track.
#[derive(Clone, Copy, Debug, PartialEq, Eq, Structural)]
pub struct TrackAnalytics {
    pub play_count: u64,
    pub revenue: u64,
    pub comments_count: u64,
    pub ratings_count: u64,
    pub avg_rating: u8,
}

} // verus!
