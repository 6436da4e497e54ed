use hyprdeck::config::{NotificationAnchor, NotificationConfig};
use hyprdeck::notification::{
    notification_placement, NotificationAction, NotificationCenter, NotificationChange,
    NotificationRequest,
};

fn config() -> NotificationConfig {
    NotificationConfig {
        enabled: true,
        width: 400,
        gap: 8,
        ..NotificationConfig::default()
    }
}

fn request(id: u32, timeout: i32) -> NotificationRequest {
    NotificationRequest {
        id,
        app_name: "app".into(),
        app_icon: String::new(),
        summary: "summary".into(),
        body: "body".into(),
        actions: vec![NotificationAction {
            key: "open".into(),
            label: "Open".into(),
        }],
        expire_timeout_ms: timeout,
    }
}

#[test]
fn replacement_keeps_one_item_and_resets_its_deadline() {
    let now = 1_000_000u64;
    let mut center = NotificationCenter::default();
    assert_eq!(
        center.notify(request(7, 5), &config(), now),
        NotificationChange::Added(7)
    );
    assert_eq!(
        center.notify(request(7, 1_000), &config(), now),
        NotificationChange::Replaced(7)
    );
    assert_eq!(center.len(), 1);
    assert!(center.expire(now + 10).is_empty());
}

#[test]
fn expiry_removes_only_elapsed_notifications() {
    let now = 1_000_000u64;
    let mut center = NotificationCenter::default();
    center.notify(request(1, 10), &config(), now);
    center.notify(request(2, 0), &config(), now);
    assert_eq!(center.expire(now + 11), vec![NotificationChange::Closed(1)]);
    assert_eq!(center.len(), 1);
}

#[test]
fn placements_stack_from_the_selected_anchor() {
    let mut config = config();
    config.anchor = NotificationAnchor::BottomRight;
    config.margin_x = 20;
    config.margin_y = 12;
    config.offset_x = -3;
    let first = notification_placement(&config, 1920, 0, 96);
    let second = notification_placement(&config, 1920, 1, 96);
    assert_eq!(first.right, 17);
    assert_eq!(first.bottom, 12);
    assert_eq!(second.bottom, 116);
}

#[test]
fn centered_position_uses_output_width() {
    let mut config = config();
    config.anchor = NotificationAnchor::TopCenter;
    assert_eq!(notification_placement(&config, 1_000, 0, 96).left, 300);
}

#[test]
fn close_reports_only_queued_ids() {
    let mut center = NotificationCenter::default();
    center.notify(request(3, 0), &config(), 0);
    assert_eq!(center.close(4), None);
    assert_eq!(center.close(3), Some(NotificationChange::Closed(3)));
    assert!(center.is_empty());
    assert_eq!(center.close(3), None);
}

#[test]
fn negative_timeout_uses_the_configured_default() {
    let mut center = NotificationCenter::default();
    let mut cfg = config();
    cfg.default_timeout_ms = 100;
    center.notify(request(9, -1), &cfg, 0);
    assert!(center.expire(99).is_empty());
    assert_eq!(center.expire(100), vec![NotificationChange::Closed(9)]);
}

#[test]
fn visible_returns_the_newest_items_first() {
    let mut center = NotificationCenter::default();
    for id in 1..=4 {
        center.notify(request(id, 0), &config(), 0);
    }
    let shown: Vec<u32> = center.visible(2).iter().map(|n| n.id).collect();
    assert_eq!(shown, vec![4, 3]);
    assert_eq!(center.visible(10).len(), 4);
}

#[test]
fn notifying_keeps_one_entry_per_id_in_place() {
    let now = 1_000u64;
    let mut center = NotificationCenter::default();
    for id in [1, 2, 3] {
        center.notify(request(id, 5_000), &config(), now);
    }
    let mut again = request(2, 5_000);
    again.summary = "updated".into();
    assert_eq!(center.notify(again, &config(), now), NotificationChange::Replaced(2));
    assert_eq!(center.notify(request(4, 5_000), &config(), now), NotificationChange::Added(4));
    // Newest first: 4, then 3, 2 (replaced in place), 1.
    let shown: Vec<(u32, String)> =
        center.visible(10).iter().map(|n| (n.id, n.summary.clone())).collect();
    assert_eq!(
        shown,
        vec![
            (4, "summary".to_owned()),
            (3, "summary".to_owned()),
            (2, "updated".to_owned()),
            (1, "summary".to_owned()),
        ]
    );
}
