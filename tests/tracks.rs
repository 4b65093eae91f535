use icp_music_platform_backend::{greet, Store, TrackRole, TrackVisibility};

fn store_with_artists() -> Store {
    let mut s = Store::new();
    s.register_artist("aaaaa-aa".to_string(), "A".to_string(), "bio a".to_string(), None, None, None, 5)
        .unwrap();
    s.register_artist("bbbbb-bb".to_string(), "B".to_string(), "bio b".to_string(), None, None, None, 6)
        .unwrap();
    s
}

#[test]
fn create_track_assigns_id_version_and_owner_roles() {
    let mut s = store_with_artists();
    let t = s.create_track("Song".to_string(), "Desc".to_string(), vec![1, 2], 10).unwrap();
    assert_eq!(t.id, 1);
    assert_eq!(t.version, 1);
    assert_eq!(t.roles, vec![(1, TrackRole::Owner), (2, TrackRole::Owner)]);
    assert_eq!(t.visibility, TrackVisibility::Public);
    assert!(t.downloadable);
    assert_eq!(t.play_count, 0);
    let second = s.create_track("Other".to_string(), "D".to_string(), vec![2], 11).unwrap();
    assert_eq!(second.id, 2);
    assert_eq!(s.list_tracks().len(), 2);
}

#[test]
fn create_track_rejects_blank_text_and_no_contributors() {
    let mut s = store_with_artists();
    assert!(s.create_track("   ".to_string(), "Desc".to_string(), vec![1], 0).is_none());
    assert!(s.create_track("Song".to_string(), "\t\n".to_string(), vec![1], 0).is_none());
    assert!(s.create_track("Song".to_string(), "Desc".to_string(), vec![], 0).is_none());
    assert!(s.list_tracks().is_empty());
    assert!(s.get_recent_activity(10).is_empty());
    assert_eq!(s.next_track_id, 1);
}

#[test]
fn create_track_logs_one_entry_per_contributor() {
    let mut s = store_with_artists();
    s.create_track("Song".to_string(), "Desc".to_string(), vec![1, 2], 42).unwrap();
    let log = s.get_recent_activity(10);
    assert_eq!(log.len(), 2);
    assert_eq!(log[0].user_id, 1);
    assert_eq!(log[1].user_id, 2);
    assert_eq!(log[0].action, "create_track");
    assert_eq!(log[0].timestamp, 42);
    assert_eq!(log[0].details, "Track 1 created");
    assert_eq!(s.get_user_activity(2).len(), 1);
}

#[test]
fn add_track_version_increments_and_records_history() {
    let mut s = store_with_artists();
    s.create_track("Song".to_string(), "Desc".to_string(), vec![1], 0).unwrap();
    let v = s.add_track_version(1, "Song v2".to_string(), "New".to_string(), vec![1, 2]).unwrap();
    assert_eq!(v.version, 2);
    assert_eq!(v.title, "Song v2");
    let t = s.get_track(1).unwrap();
    assert_eq!(t.version, 2);
    assert_eq!(t.title, "Song v2");
    assert_eq!(t.contributors, vec![1, 2]);
    let v3 = s.add_track_version(1, "Song v3".to_string(), "Newer".to_string(), vec![2]).unwrap();
    assert_eq!(v3.version, 3);
    let history = s.get_track_versions(1);
    assert_eq!(history.len(), 3);
    assert_eq!(history[0].version, 1);
    assert_eq!(history[0].title, "Song");
    assert_eq!(history[1].version, 2);
    assert_eq!(history[2].version, 3);
}

#[test]
fn add_track_version_on_unknown_track_fails() {
    let mut s = store_with_artists();
    assert!(s.add_track_version(9, "T".to_string(), "D".to_string(), vec![1]).is_none());
    assert!(s.get_track_versions(9).is_empty());
}

#[test]
fn update_track_overwrites_without_recording_a_version() {
    let mut s = store_with_artists();
    s.create_track("Song".to_string(), "Desc".to_string(), vec![1], 0).unwrap();
    let t = s.update_track(1, "Renamed".to_string(), "D2".to_string(), vec![2], 7).unwrap();
    assert_eq!(t.version, 7);
    assert_eq!(t.title, "Renamed");
    assert_eq!(s.get_track_versions(1).len(), 1);
    assert!(s.update_track(5, "x".to_string(), "y".to_string(), vec![], 1).is_none());
}

#[test]
fn delete_track_cascades_to_versions() {
    let mut s = store_with_artists();
    s.create_track("Song".to_string(), "Desc".to_string(), vec![1], 0).unwrap();
    s.create_track("Keep".to_string(), "Desc".to_string(), vec![2], 0).unwrap();
    s.add_track_version(1, "Song 2".to_string(), "D".to_string(), vec![1]).unwrap();
    assert!(s.delete_track(1));
    assert!(s.get_track(1).is_none());
    assert!(s.get_track_versions(1).is_empty());
    assert_eq!(s.get_track_versions(2).len(), 1);
    assert!(s.get_track(2).is_some());
    assert!(!s.delete_track(1));
    let t = s.create_track("Fresh".to_string(), "Desc".to_string(), vec![1], 0).unwrap();
    assert_eq!(t.id, 3);
}

#[test]
fn visibility_invites_and_roles() {
    let mut s = store_with_artists();
    s.create_track("Song".to_string(), "Desc".to_string(), vec![1], 0).unwrap();
    assert!(s.set_track_visibility(1, TrackVisibility::InviteOnly));
    assert_eq!(s.get_track_visibility(1), Some(TrackVisibility::InviteOnly));
    assert!(!s.set_track_visibility(2, TrackVisibility::Private));
    assert_eq!(s.get_track_visibility(2), None);
    assert!(s.invite_user(1, 30));
    assert!(s.invite_user(1, 30));
    assert!(s.invite_user(1, 31));
    assert_eq!(s.get_track(1).unwrap().invited, vec![30, 31]);
    assert!(!s.invite_user(2, 30));
    assert!(s.assign_role(1, 30, TrackRole::Viewer));
    assert!(s.assign_role(1, 30, TrackRole::Collaborator));
    assert_eq!(s.get_user_role(1, 30), Some(TrackRole::Collaborator));
    assert_eq!(s.get_user_role(1, 1), Some(TrackRole::Owner));
    assert_eq!(s.get_user_role(1, 99), None);
    assert_eq!(s.get_track(1).unwrap().roles.len(), 2);
    assert!(!s.assign_role(2, 30, TrackRole::Viewer));
}

#[test]
fn rating_again_overwrites_and_average_truncates() {
    let mut s = store_with_artists();
    s.create_track("Song".to_string(), "Desc".to_string(), vec![1], 0).unwrap();
    assert!(s.rate_track(1, 7, 3));
    assert!(s.rate_track(1, 7, 4));
    assert_eq!(s.get_track_rating(1), (1, 4));
    assert_eq!(s.get_user_track_rating(1, 7), Some(4));
    assert!(s.rate_track(1, 8, 5));
    assert_eq!(s.get_track_rating(1), (2, 4));
    assert_eq!(s.get_track(1).unwrap().ratings, vec![(7, 4), (8, 5)]);
}

#[test]
fn rating_out_of_range_or_unknown_track_fails() {
    let mut s = store_with_artists();
    s.create_track("Song".to_string(), "Desc".to_string(), vec![1], 0).unwrap();
    assert!(!s.rate_track(1, 7, 0));
    assert!(!s.rate_track(1, 7, 6));
    assert!(!s.rate_track(2, 7, 3));
    assert_eq!(s.get_track_rating(1), (0, 0));
    assert_eq!(s.get_track_rating(2), (0, 0));
    assert_eq!(s.get_user_track_rating(1, 7), None);
}

#[test]
fn tags_genre_and_searches() {
    let mut s = store_with_artists();
    s.create_track("My Song".to_string(), "Desc".to_string(), vec![1], 0).unwrap();
    s.create_track("Other tune".to_string(), "Desc".to_string(), vec![2], 0).unwrap();
    assert!(s.add_tag(1, "rock".to_string()));
    assert!(s.add_tag(1, "rock".to_string()));
    assert!(s.add_tag(1, "live".to_string()));
    assert_eq!(s.get_track(1).unwrap().tags, vec!["rock".to_string(), "live".to_string()]);
    assert!(s.remove_tag(1, "rock".to_string()));
    assert_eq!(s.get_track(1).unwrap().tags, vec!["live".to_string()]);
    assert!(!s.add_tag(3, "x".to_string()));
    assert!(!s.remove_tag(3, "x".to_string()));
    assert_eq!(s.search_tracks_by_tag("live".to_string()).len(), 1);
    assert!(s.search_tracks_by_tag("rock".to_string()).is_empty());
    assert!(s.set_genre(2, "jazz".to_string()));
    assert_eq!(s.get_genre(2), Some("jazz".to_string()));
    assert_eq!(s.get_genre(1), None);
    assert!(!s.set_genre(3, "pop".to_string()));
    let jazz = s.search_tracks_by_genre("jazz".to_string());
    assert_eq!(jazz.len(), 1);
    assert_eq!(jazz[0].id, 2);
    let by_two = s.search_tracks_by_contributor(2);
    assert_eq!(by_two.len(), 1);
    assert_eq!(by_two[0].id, 2);
}

#[test]
fn title_search_ignores_case() {
    let mut s = store_with_artists();
    s.create_track("My Song".to_string(), "Desc".to_string(), vec![1], 0).unwrap();
    s.create_track("Other tune".to_string(), "Desc".to_string(), vec![2], 0).unwrap();
    let hits = s.search_tracks_by_title("SONG".to_string());
    assert_eq!(hits.len(), 1);
    assert_eq!(hits[0].id, 1);
    assert_eq!(s.search_tracks_by_title("TUNE".to_string())[0].id, 2);
    assert_eq!(s.search_tracks_by_title(String::new()).len(), 2);
    assert!(s.search_tracks_by_title("missing".to_string()).is_empty());
}

#[test]
fn comments_are_kept_and_logged() {
    let mut s = store_with_artists();
    s.create_track("Song".to_string(), "Desc".to_string(), vec![1], 0).unwrap();
    let t = s.add_comment(1, 2, "nice".to_string(), 9).unwrap();
    assert_eq!(t.comments.len(), 1);
    assert_eq!(s.list_comments(1)[0].text, "nice");
    assert_eq!(s.list_comments(1)[0].commenter, 2);
    assert!(s.list_comments(4).is_empty());
    assert!(s.add_comment(4, 2, "x".to_string(), 9).is_none());
    let mine = s.get_user_activity(2);
    assert_eq!(mine.len(), 1);
    assert_eq!(mine[0].action, "add_comment");
    assert_eq!(mine[0].details, "Commented on track 1: nice");
}

#[test]
fn play_count_download_flag_and_analytics() {
    let mut s = store_with_artists();
    s.create_track("Song".to_string(), "Desc".to_string(), vec![1], 0).unwrap();
    assert!(s.increment_play_count(1));
    assert!(s.increment_play_count(1));
    assert!(!s.increment_play_count(2));
    assert!(s.can_download_track(1));
    assert!(s.set_track_downloadable(1, false));
    assert!(!s.can_download_track(1));
    assert!(!s.can_download_track(2));
    assert!(!s.set_track_downloadable(2, true));
    s.set_track_splits(1, vec![icp_music_platform_backend::Split { id: 1, pct: 100 }]).unwrap();
    assert!(s.distribute_payment(1, 50, 30, 1));
    assert!(s.distribute_payment(1, 51, 12, 2));
    s.add_comment(1, 2, "ok".to_string(), 3).unwrap();
    s.rate_track(1, 7, 2);
    s.rate_track(1, 8, 5);
    let a = s.get_track_analytics(1).unwrap();
    assert_eq!(a.play_count, 2);
    assert_eq!(a.revenue, 42);
    assert_eq!(a.comments_count, 1);
    assert_eq!(a.ratings_count, 2);
    assert_eq!(a.avg_rating, 3);
    assert!(s.get_track_analytics(2).is_none());
}

#[test]
fn recent_activity_is_a_clamped_tail() {
    let mut s = Store::new();
    s.log_activity(1, "a", 1, "first");
    s.log_activity(2, "b", 2, "second");
    s.log_activity(1, "c", 3, "third");
    let last = s.get_recent_activity(2);
    assert_eq!(last.len(), 2);
    assert_eq!(last[0].details, "second");
    assert_eq!(last[1].details, "third");
    assert_eq!(s.get_recent_activity(10).len(), 3);
    assert!(s.get_recent_activity(0).is_empty());
    let ones = s.get_user_activity(1);
    assert_eq!(ones.len(), 2);
    assert_eq!(ones[1].action, "c");
}

#[test]
fn greeting() {
    assert_eq!(greet("World"), "Hello, World!");
}
