use icp_music_platform_backend::{CollabRequestStatus, Split, Store, TaskStatus, TrackRole};

fn artists(n: u64) -> Store {
    let mut s = Store::new();
    let mut k: u64 = 0;
    while k < n {
        s.register_artist(format!("p{}", k), format!("Artist {}", k), String::new(), None, None, None, 0)
            .unwrap();
        k += 1;
    }
    s
}

#[test]
fn end_to_end_payment_scenario() {
    let mut s = artists(2);
    let t = s.create_track("Song".to_string(), "Desc".to_string(), vec![1, 2], 0).unwrap();
    assert_eq!(t.id, 1);
    assert_eq!(t.version, 1);
    assert_eq!(s.get_user_role(1, 1), Some(TrackRole::Owner));
    assert_eq!(s.get_user_role(1, 2), Some(TrackRole::Owner));
    s.set_track_splits(1, vec![Split { id: 1, pct: 70 }, Split { id: 2, pct: 30 }]).unwrap();
    assert!(s.distribute_payment(1, 99, 100, 0));
    assert_eq!(s.get_royalty_balance(1), 70);
    assert_eq!(s.get_royalty_balance(2), 30);
    assert_eq!(s.get_payment_history(1).len(), 1);
    let p = s.get_payment_history(1)[0];
    assert_eq!((p.payer, p.amount, p.timestamp), (99, 100, 0));
    let logged = s.get_user_activity(99);
    assert_eq!(logged.len(), 1);
    assert_eq!(logged[0].action, "distribute_payment");
    assert_eq!(logged[0].details, "Paid 100 for track 1");
}

#[test]
fn payment_splits_sixty_forty() {
    let mut s = artists(2);
    s.create_track("Song".to_string(), "Desc".to_string(), vec![1, 2], 0).unwrap();
    s.set_track_splits(1, vec![Split { id: 1, pct: 60 }, Split { id: 2, pct: 40 }]).unwrap();
    assert!(s.distribute_payment(1, 5, 100, 0));
    assert_eq!(s.get_royalty_balance(1), 60);
    assert_eq!(s.get_royalty_balance(2), 40);
}

#[test]
fn payment_over_one_hundred_percent_over_distributes() {
    let mut s = artists(2);
    s.create_track("Song".to_string(), "Desc".to_string(), vec![1, 2], 0).unwrap();
    s.set_track_splits(1, vec![Split { id: 1, pct: 100 }, Split { id: 2, pct: 50 }]).unwrap();
    assert!(s.can_distribute(1, 100));
    assert!(s.distribute_payment(1, 5, 100, 0));
    assert_eq!(s.get_royalty_balance(1) + s.get_royalty_balance(2), 150);
}

#[test]
fn payment_shares_truncate_and_unknown_artists_get_nothing() {
    let mut s = artists(2);
    s.create_track("Song".to_string(), "Desc".to_string(), vec![1, 2], 0).unwrap();
    s.set_track_splits(
        1,
        vec![Split { id: 1, pct: 33 }, Split { id: 2, pct: 33 }, Split { id: 9, pct: 34 }],
    )
    .unwrap();
    assert!(s.distribute_payment(1, 5, 10, 0));
    assert_eq!(s.get_royalty_balance(1), 3);
    assert_eq!(s.get_royalty_balance(2), 3);
    assert_eq!(s.get_royalty_balance(9), 0);
    assert_eq!(s.get_payment_history(1).len(), 1);
}

#[test]
fn payment_with_a_repeated_artist_credits_each_split() {
    let mut s = artists(1);
    s.create_track("Song".to_string(), "Desc".to_string(), vec![1], 0).unwrap();
    s.set_track_splits(1, vec![Split { id: 1, pct: 20 }, Split { id: 1, pct: 30 }]).unwrap();
    assert!(s.distribute_payment(1, 5, 10, 0));
    assert_eq!(s.get_royalty_balance(1), 5);
}

#[test]
fn payment_fails_without_track_or_splits() {
    let mut s = artists(1);
    assert!(!s.distribute_payment(1, 5, 100, 0));
    s.create_track("Song".to_string(), "Desc".to_string(), vec![1], 0).unwrap();
    assert!(!s.distribute_payment(1, 5, 100, 0));
    assert!(s.get_payment_history(1).is_empty());
    assert!(s.get_track_splits(1).is_none());
    assert!(s.set_track_splits(2, vec![]).is_none());
}

#[test]
fn splits_are_replaced_wholesale() {
    let mut s = artists(2);
    s.create_track("Song".to_string(), "Desc".to_string(), vec![1, 2], 0).unwrap();
    s.set_track_splits(1, vec![Split { id: 1, pct: 50 }, Split { id: 2, pct: 50 }]).unwrap();
    s.set_track_splits(1, vec![Split { id: 2, pct: 10 }]).unwrap();
    assert_eq!(s.get_track_splits(1), Some(vec![Split { id: 2, pct: 10 }]));
}

#[test]
fn overflowing_payment_is_detected() {
    let mut s = artists(1);
    s.create_track("Song".to_string(), "Desc".to_string(), vec![1], 0).unwrap();
    s.set_track_splits(1, vec![Split { id: 1, pct: 200 }]).unwrap();
    assert!(!s.can_distribute(1, u64::MAX));
    assert!(s.can_distribute(1, u64::MAX / 2));
    assert!(s.can_distribute(7, u64::MAX));
}

#[test]
fn withdrawal_rules() {
    let mut s = artists(1);
    s.create_track("Song".to_string(), "Desc".to_string(), vec![1], 0).unwrap();
    s.set_track_splits(1, vec![Split { id: 1, pct: 100 }]).unwrap();
    s.distribute_payment(1, 5, 50, 0);
    assert!(!s.withdraw_royalties(1, 0, 1));
    assert_eq!(s.get_royalty_balance(1), 50);
    assert!(!s.withdraw_royalties(1, 51, 1));
    assert_eq!(s.get_royalty_balance(1), 50);
    assert!(!s.withdraw_royalties(2, 1, 1));
    assert!(s.withdraw_royalties(1, 20, 8));
    assert_eq!(s.get_royalty_balance(1), 30);
    assert!(s.withdraw_royalties(1, 30, 9));
    assert_eq!(s.get_royalty_balance(1), 0);
    let log = s.get_user_activity(1);
    let last = &log[log.len() - 1];
    assert_eq!(last.action, "withdraw_royalties");
    assert_eq!(last.details, "Withdrew 30 tokens");
    assert_eq!(last.timestamp, 9);
}

#[test]
fn duplicate_pending_request_refused_until_answered() {
    let mut s = Store::new();
    let first = s.send_collab_request(1, 2, 5, Some("hi".to_string()), 3).unwrap();
    assert_eq!(first.id, 1);
    assert_eq!(first.status, CollabRequestStatus::Pending);
    assert!(s.send_collab_request(1, 2, 5, None, 4).is_none());
    assert!(s.send_collab_request(2, 1, 5, None, 4).is_some());
    let answered = s.respond_collab_request(1, true).unwrap();
    assert_eq!(answered.status, CollabRequestStatus::Accepted);
    let again = s.send_collab_request(1, 2, 5, None, 6).unwrap();
    assert_eq!(again.id, 3);
}

#[test]
fn answering_only_moves_pending_requests() {
    let mut s = Store::new();
    s.send_collab_request(1, 2, 5, None, 0).unwrap();
    assert_eq!(s.respond_collab_request(1, false).unwrap().status, CollabRequestStatus::Declined);
    assert!(s.respond_collab_request(1, true).is_none());
    assert!(s.respond_collab_request(7, true).is_none());
    assert_eq!(s.list_collab_requests_for_user(1).len(), 1);
    assert_eq!(s.list_collab_requests_for_user(2).len(), 1);
    assert!(s.list_collab_requests_for_user(3).is_empty());
}

#[test]
fn tasks_are_created_and_moved_freely() {
    let mut s = Store::new();
    assert!(s.create_task(1, 2, "  ".to_string(), 0).is_none());
    let t = s.create_task(1, 2, "mix".to_string(), 10).unwrap();
    assert_eq!(t.id, 1);
    assert_eq!(t.status, TaskStatus::Open);
    assert_eq!((t.created_at, t.updated_at), (10, 10));
    s.create_task(2, 2, "master".to_string(), 11).unwrap();
    let done = s.update_task_status(1, TaskStatus::Completed, 20).unwrap();
    assert_eq!(done.status, TaskStatus::Completed);
    assert_eq!(done.updated_at, 20);
    assert_eq!(done.created_at, 10);
    let back = s.update_task_status(1, TaskStatus::Open, 21).unwrap();
    assert_eq!(back.status, TaskStatus::Open);
    assert!(s.update_task_status(9, TaskStatus::Cancelled, 22).is_none());
    assert_eq!(s.list_tasks_for_track(1).len(), 1);
    assert_eq!(s.list_tasks_for_user(2).len(), 2);
    assert!(s.list_tasks_for_user(3).is_empty());
}

#[test]
fn artist_registration_and_update() {
    let mut s = Store::new();
    assert!(s.register_artist("p".to_string(), " ".to_string(), String::new(), None, None, None, 0).is_none());
    let a = s
        .register_artist(
            "p".to_string(),
            "Ann".to_string(),
            "bio".to_string(),
            Some("@ann".to_string()),
            None,
            Some(vec!["x".to_string()]),
            4,
        )
        .unwrap();
    assert_eq!(a.id, 1);
    assert_eq!(a.royalty_balance, 0);
    assert_eq!(a.user_principal, "p");
    let u = s
        .update_artist("q".to_string(), 1, "Anna".to_string(), "new".to_string(), None, None, None, 5)
        .unwrap();
    assert_eq!(u.name, "Anna");
    assert_eq!(u.user_principal, "p");
    assert!(s.update_artist("q".to_string(), 2, "x".to_string(), String::new(), None, None, None, 5).is_none());
    assert_eq!(s.get_artist(1).unwrap().name, "Anna");
    assert!(s.get_artist(2).is_none());
    assert_eq!(s.list_artists().len(), 1);
    let log = s.get_user_activity_log(&"p".to_string());
    assert_eq!(log.len(), 1);
    assert_eq!(log[0].details, "Registered artist: Ann");
    let other = s.get_user_activity_log(&"q".to_string());
    assert_eq!(other[0].action, "update_artist");
    assert_eq!(other[0].details, "Updated artist: Anna");
}
