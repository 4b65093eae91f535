use icp_music_platform_backend::{
    AppealStatus, LicenseType, ModerationStatus, ModerationTargetType, ReportStatus,
    ReportTargetType, Store, SuspensionStatus, SuspensionTargetType, UserRole,
};

fn s(x: &str) -> String {
    x.to_string()
}

fn with_admin() -> Store {
    let mut st = Store::new();
    st.register_user(s("admin"), s("Root"), None, None, 1).unwrap();
    assert!(st.promote_to_admin(s("admin")));
    st
}

#[test]
fn user_profiles() {
    let mut st = Store::new();
    assert!(st.register_user(s("p1"), s(" "), None, None, 0).is_none());
    let u = st.register_user(s("p1"), s("Alice"), Some(s("bio")), None, 2).unwrap();
    assert_eq!(u.role, UserRole::User);
    assert!(st.register_user(s("p1"), s("Again"), None, None, 3).is_none());
    st.register_user(s("p2"), s("Bob"), None, None, 3).unwrap();
    assert_eq!(st.get_user(&s("p1")).unwrap().username, "Alice");
    assert!(st.get_user_by_principal(&s("p3")).is_none());
    let up = st.update_user(s("p1"), s("Alicia"), None, Some(s("url")), 4).unwrap();
    assert_eq!(up.username, "Alicia");
    assert_eq!(up.avatar_url, Some(s("url")));
    assert!(st.update_user(s("p3"), s("x"), None, None, 4).is_none());
    assert_eq!(st.search_users_by_username(s("ALI")).len(), 1);
    assert_eq!(st.search_users_by_username(s("")).len(), 2);
    assert!(st.delete_user(s("p2"), 5));
    assert!(!st.delete_user(s("p2"), 6));
    assert_eq!(st.list_users().len(), 1);
    let log = st.get_user_activity_log(&s("p2"));
    assert_eq!(log.len(), 2);
    assert_eq!(log[1].action, "delete_user");
    assert_eq!(log[1].details, "Deleted user profile");
    st.add_dummy_activity(s("p9"), 7);
    assert_eq!(st.get_user_activity_log(&s("p9"))[0].action, "dummy_action");
}

#[test]
fn admin_powers_need_an_admin() {
    let mut st = with_admin();
    st.register_user(s("u"), s("User"), None, None, 2).unwrap();
    assert!(st.is_admin(&s("admin")));
    assert!(!st.is_admin(&s("u")));
    assert!(!st.ban_user(s("u"), s("admin"), 3));
    assert!(st.list_audit_log().is_empty());
    assert!(st.ban_user(s("admin"), s("u"), 4));
    assert!(!st.ban_user(s("admin"), s("nobody"), 4));
    let audit = st.list_audit_log();
    assert_eq!(audit.len(), 1);
    assert_eq!(audit[0].id, 1);
    assert_eq!(audit[0].action, "ban_user");
    assert_eq!(audit[0].target_type, "User");
    assert_eq!(audit[0].target_id, "u");
    assert_eq!(audit[0].details, Some(s("User banned by admin")));
    assert!(st.delete_user_by_admin(s("admin"), s("u"), 5));
    assert!(st.get_user_by_principal(&s("u")).is_none());
    assert_eq!(st.list_audit_log()[1].id, 2);
}

#[test]
fn admin_deletes_artists_and_tracks() {
    let mut st = with_admin();
    st.register_artist(s("a"), s("A"), s(""), None, None, None, 0).unwrap();
    st.register_artist(s("b"), s("B"), s(""), None, None, None, 0).unwrap();
    st.create_track(s("Song"), s("Desc"), vec![1], 0).unwrap();
    assert!(!st.delete_artist_by_admin(s("a"), 1, 1));
    assert!(st.delete_artist_by_admin(s("admin"), 1, 2));
    assert!(st.get_artist(1).is_none());
    assert!(st.get_artist(2).is_some());
    assert!(!st.delete_artist_by_admin(s("admin"), 1, 3));
    assert!(st.delete_track_by_admin(s("admin"), 1, 4));
    assert!(st.get_track(1).is_none());
    assert!(!st.delete_track_by_admin(s("admin"), 1, 5));
    let audit = st.list_audit_log();
    assert_eq!(audit.len(), 2);
    assert_eq!(audit[0].target_id, "1");
    assert_eq!(audit[1].action, "delete_track_by_admin");
    assert_eq!(audit[1].target_type, "Track");
}

#[test]
fn following_artists_and_tracks() {
    let mut st = Store::new();
    assert!(!st.unfollow_artist(s("me"), s("x")));
    assert!(st.follow_artist(s("me"), s("x")));
    assert!(st.follow_artist(s("me"), s("x")));
    assert!(st.follow_artist(s("me"), s("y")));
    assert_eq!(st.list_followed_artists(&s("me")), vec![s("x"), s("y")]);
    assert!(st.unfollow_artist(s("me"), s("x")));
    assert_eq!(st.list_followed_artists(&s("me")), vec![s("y")]);
    assert!(st.list_followed_artists(&s("you")).is_empty());
    assert!(!st.unfollow_track(s("me"), 1));
    assert!(st.follow_track(s("me"), 4));
    assert!(st.follow_track(s("me"), 4));
    assert!(st.follow_track(s("me"), 5));
    assert_eq!(st.list_followed_tracks(&s("me")), vec![4, 5]);
    assert!(st.unfollow_track(s("me"), 4));
    assert_eq!(st.list_followed_tracks(&s("me")), vec![5]);
}

#[test]
fn notifications() {
    let mut st = Store::new();
    let n = st.send_notification(s("me"), s("hello"), 3);
    assert_eq!(n.id, 1);
    assert!(!n.read);
    st.send_notification(s("you"), s("hi"), 4);
    assert_eq!(st.list_notifications(&s("me")).len(), 1);
    assert!(!st.mark_notification_read(s("you"), 1));
    assert!(st.mark_notification_read(s("me"), 1));
    assert!(st.list_notifications(&s("me"))[0].read);
}

#[test]
fn playlists() {
    let mut st = Store::new();
    assert!(st.create_playlist(s("me"), s(""), None, vec![], 0).is_none());
    let p = st.create_playlist(s("me"), s("Mix"), None, vec![1, 2], 5).unwrap();
    assert_eq!(p.id, 1);
    assert_eq!((p.created_at, p.updated_at), (5, 5));
    assert!(st.update_playlist(s("you"), 1, s("X"), None, vec![], 6).is_none());
    let up = st.update_playlist(s("me"), 1, s("Mix 2"), Some(s("d")), vec![3], 7).unwrap();
    assert_eq!(up.name, "Mix 2");
    assert_eq!(up.track_ids, vec![3]);
    assert_eq!(up.created_at, 5);
    assert_eq!(up.updated_at, 7);
    assert_eq!(st.list_playlists(&s("me")).len(), 1);
    assert!(st.list_playlists(&s("you")).is_empty());
    assert_eq!(st.get_playlist(1).unwrap().name, "Mix 2");
    assert!(!st.delete_playlist(s("you"), 1));
    assert!(st.delete_playlist(s("me"), 1));
    assert!(st.get_playlist(1).is_none());
}

#[test]
fn plays_and_downloads_per_user() {
    let mut st = Store::new();
    assert!(st.record_play(s("me"), 1));
    assert!(st.record_play(s("me"), 1));
    assert!(st.record_download(s("me"), 1));
    assert!(st.record_download(s("you"), 1));
    assert_eq!(st.get_user_play_count(&s("me"), 1), 2);
    assert_eq!(st.get_user_download_count(&s("me"), 1), 1);
    assert_eq!(st.get_user_play_count(&s("you"), 1), 0);
    assert_eq!(st.get_user_download_count(&s("you"), 2), 0);
}

#[test]
fn direct_messages() {
    let mut st = Store::new();
    assert!(st.send_message(s("a"), s("b"), s("  "), 0).is_none());
    let m = st.send_message(s("a"), s("b"), s("hey"), 1).unwrap();
    assert_eq!(m.id, 1);
    st.send_message(s("b"), s("a"), s("yo"), 2).unwrap();
    st.send_message(s("c"), s("a"), s("other"), 3).unwrap();
    assert_eq!(st.list_messages_with(&s("a"), &s("b")).len(), 2);
    assert!(!st.mark_message_read(s("a"), 1));
    assert!(st.mark_message_read(s("b"), 1));
    assert!(st.list_messages_with(&s("b"), &s("a"))[0].read);
}

#[test]
fn reports_and_reviews() {
    let mut st = with_admin();
    let r = st.report_content(s("u"), ReportTargetType::Track, s("7"), s("spam"), None, 2).unwrap();
    assert_eq!(r.id, 1);
    assert_eq!(r.status, ReportStatus::Pending);
    assert!(!st.review_report(s("u"), 1, ReportStatus::Resolved, None, 3));
    assert!(!st.review_report(s("admin"), 2, ReportStatus::Resolved, None, 3));
    assert!(st.review_report(s("admin"), 1, ReportStatus::Resolved, Some(s("done")), 4));
    let rep = &st.list_reports()[0];
    assert_eq!(rep.status, ReportStatus::Resolved);
    assert_eq!(rep.reviewed_by, Some(s("admin")));
    assert_eq!(rep.reviewed_at, Some(4));
    let audit = st.list_audit_log();
    assert_eq!(audit[0].target_type, "Track");
    assert_eq!(audit[0].target_id, "7");
    assert_eq!(audit[0].details, Some(s("Report 1 reviewed: Resolved")));
}

#[test]
fn licences_replace_earlier_ones() {
    let mut st = Store::new();
    assert!(st.get_track_license(1).is_none());
    st.set_track_license(1, LicenseType::Custom, Some(s("t")), None, 3).unwrap();
    st.set_track_license(1, LicenseType::CreativeCommons, None, None, 4).unwrap();
    let l = st.get_track_license(1).unwrap();
    assert_eq!(l.license_type, LicenseType::CreativeCommons);
    assert_eq!(l.issued_at, 4);
    assert_eq!(st.community.licenses.len(), 1);
}

#[test]
fn rate_limit_windows() {
    let mut st = Store::new();
    assert!(st.check_rate_limit(s("me"), 2, 10, 100));
    assert!(st.check_rate_limit(s("me"), 2, 10, 101));
    assert!(!st.check_rate_limit(s("me"), 2, 10, 105));
    assert!(st.check_rate_limit(s("me"), 2, 10, 111));
    assert_eq!(st.community.rate_limits[0].call_count, 1);
    assert_eq!(st.community.rate_limits[0].window_start, 111);
}

#[test]
fn moderation_queue() {
    let mut st = with_admin();
    let item = st
        .flag_content_for_moderation(s("u"), ModerationTargetType::Comment, s("c1"), s("rude"), 2)
        .unwrap();
    assert_eq!(item.flagged_by, Some(s("u")));
    assert!(!st.review_moderation_item(s("u"), 1, ModerationStatus::Removed, None, 3));
    assert!(st.review_moderation_item(s("admin"), 1, ModerationStatus::Removed, None, 3));
    assert_eq!(st.list_moderation_queue()[0].status, ModerationStatus::Removed);
    assert_eq!(
        st.list_audit_log()[0].details,
        Some(s("Moderation item 1 reviewed: Removed"))
    );
    assert_eq!(st.list_audit_log()[0].target_type, "Comment");
}

#[test]
fn suspensions_and_appeals() {
    let mut st = with_admin();
    assert!(st.suspend_target(s("u"), SuspensionTargetType::User, s("x"), s("r"), None, 1).is_none());
    let sus = st
        .suspend_target(s("admin"), SuspensionTargetType::Artist, s("3"), s("abuse"), Some(60), 2)
        .unwrap();
    assert_eq!(sus.id, 1);
    assert_eq!(sus.status, SuspensionStatus::Active);
    assert_eq!(st.list_audit_log()[0].details, Some(s("Suspension imposed: abuse")));
    let appeal = st.submit_suspension_appeal(s("x"), 1, s("sorry"), 3).unwrap();
    assert_eq!(appeal.status, AppealStatus::Pending);
    assert!(st.review_suspension_appeal(s("admin"), 1, AppealStatus::Approved, None, 4));
    assert!(!st.review_suspension_appeal(s("admin"), 2, AppealStatus::Approved, None, 4));
    assert_eq!(st.list_suspension_appeals()[0].status, AppealStatus::Approved);
    assert_eq!(st.list_audit_log()[1].target_id, "1");
    assert_eq!(st.list_audit_log()[1].details, Some(s("Appeal 1 reviewed: Approved")));
    assert!(st.lift_suspension(s("admin"), 1, Some(s("ok")), 5));
    assert!(!st.lift_suspension(s("admin"), 1, None, 6));
    let lifted = &st.list_suspensions()[0];
    assert_eq!(lifted.status, SuspensionStatus::Lifted);
    assert_eq!(lifted.lifted_at, Some(5));
    assert_eq!(st.list_audit_log()[2].details, Some(s("Suspension 1 lifted")));
}
