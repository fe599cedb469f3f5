use podfetch::notification::{Notification, NotificationId, NotificationService};

fn note(id: i32, created_at: &str, status: &str) -> Notification {
    Notification {
        id,
        type_of_message: "Download".to_string(),
        message: format!("message {id}"),
        created_at: created_at.to_string(),
        status: status.to_string(),
    }
}

#[test]
fn unread_notifications_newest_first() {
    let rows = vec![
        note(1, "2023-01-01 10:00", "unread"),
        note(2, "2023-01-03 10:00", "dismissed"),
        note(3, "2023-01-02 10:00", "unread"),
        note(4, "2022-12-31 10:00", "unread"),
    ];
    let unread = Notification::get_unread_notifications(&rows).unwrap();
    let ids: Vec<i32> = unread.iter().map(|n| n.id).collect();
    assert_eq!(ids, vec![3, 1, 4]);
}

#[test]
fn dismissed_notification_is_no_longer_unread() {
    let mut rows = vec![note(1, "2023-01-01", "unread"), note(2, "2023-01-02", "unread")];
    let mut service = NotificationService::new();
    service.dismiss(&NotificationId { id: 2 }, &mut rows).unwrap();
    assert_eq!(rows[1].status, "dismissed");
    assert_eq!(rows[0].status, "unread");
    let unread = service.get_unread_notifications(&rows).unwrap();
    let ids: Vec<i32> = unread.iter().map(|n| n.id).collect();
    assert_eq!(ids, vec![1]);
}

#[test]
fn status_update_takes_any_string() {
    let mut rows = vec![note(5, "2023-01-01", "unread")];
    Notification::update_status_of_notification(5, "archived", &mut rows).unwrap();
    assert_eq!(rows[0].status, "archived");
    Notification::update_status_of_notification(9, "dismissed", &mut rows).unwrap();
    assert_eq!(rows[0].status, "archived");
}

#[test]
fn insert_assigns_next_id() {
    let mut rows: Vec<Notification> = vec![];
    Notification::insert_notification(note(0, "2023-01-01", "unread"), &mut rows).unwrap();
    assert_eq!(rows[0].id, 1);
    Notification::insert_notification(note(0, "2023-01-02", "unread"), &mut rows).unwrap();
    assert_eq!(rows[1].id, 2);
    assert_eq!(rows[1].created_at, "2023-01-02");
}

#[test]
fn insert_fails_when_ids_are_exhausted() {
    let mut rows = vec![note(i32::MAX, "2023-01-01", "unread")];
    assert!(Notification::insert_notification(note(0, "x", "unread"), &mut rows).is_err());
    assert_eq!(rows.len(), 1);
}

#[test]
fn no_unread_notifications_in_empty_table() {
    assert!(Notification::get_unread_notifications(&vec![]).unwrap().is_empty());
}
