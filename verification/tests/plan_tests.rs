use a11y_bot::Account;
use a11y_bot::Card;
use a11y_bot::NotificationItem;
use a11y_bot::Score;
use a11y_bot::TimelineItem;
use a11y_bot::audit_plan;
use a11y_bot::follow_plan;
use a11y_bot::idempotency_key;
use a11y_bot::notifications_fetch;
use a11y_bot::reply_plan;
use a11y_bot::timeline_fetch;

const INSTANCE: &str = "https://social.example";

fn linked_item(id: &str, url: &str) -> TimelineItem {
    TimelineItem {
        id: id.to_owned(),
        card: Some(Card { url: Some(url.to_owned()) }),
        in_reply_to_id: None,
        reblog: false,
        account: Account { id: "9".to_owned(), acct: "author@elsewhere".to_owned() },
    }
}

#[test]
fn fetch_requests_carry_endpoint_and_cursor() {
    let r = timeline_fetch(INSTANCE, &"77".to_owned());
    assert_eq!(r.url, "https://social.example/api/v1/timelines/home?limit=40");
    assert_eq!(r.min_id, "77");
    let n = notifications_fetch(INSTANCE, &"5".to_owned());
    assert_eq!(n.url, "https://social.example/api/v1/notifications?limit=30&types[]=follow");
    assert_eq!(n.min_id, "5");
}

#[test]
fn audit_skips_item_without_card() {
    let mut item = linked_item("10", "https://page.example/a");
    item.card = None;
    assert!(audit_plan(&item, &String::new()).is_none());
}

#[test]
fn audit_skips_card_without_url() {
    let mut item = linked_item("10", "https://page.example/a");
    item.card = Some(Card { url: None });
    assert!(audit_plan(&item, &String::new()).is_none());
}

#[test]
fn audit_skips_reply_item() {
    let mut item = linked_item("10", "https://page.example/a");
    item.in_reply_to_id = Some("3".to_owned());
    assert!(audit_plan(&item, &String::new()).is_none());
}

#[test]
fn audit_skips_reblog_item() {
    let mut item = linked_item("10", "https://page.example/a");
    item.reblog = true;
    assert!(audit_plan(&item, &String::new()).is_none());
}

#[test]
fn audit_requests_score_for_linked_item() {
    let item = linked_item("10", "https://page.example/a");
    let q = audit_plan(&item, &String::new()).expect("linked original item is audited");
    assert_eq!(
        q.endpoint,
        "https://www.googleapis.com/pagespeedonline/v5/runPagespeed?category=accessibility"
    );
    assert_eq!(q.target_url, "https://page.example/a");
    assert!(q.api_key.is_none());

    let with_key = audit_plan(&item, &"sekrit".to_owned()).unwrap();
    assert_eq!(with_key.api_key.as_deref(), Some("sekrit"));
}

#[test]
fn score_at_threshold_is_skipped_and_just_below_is_not() {
    let item = linked_item("10", "https://page.example/a");
    let url = "https://page.example/a".to_owned();
    let at = reply_plan(&item, &url, &Score::from_units(80000), INSTANCE);
    assert!(at.is_none());
    let below = reply_plan(&item, &url, &Score::from_units(79999), INSTANCE);
    let q = below.expect("score below the threshold draws a reply");
    assert_eq!(q.url, "https://social.example/api/v1/statuses");
    assert_eq!(q.idempotency_key, "a11y-v2-10");
    assert_eq!(q.in_reply_to_id, "10");
    assert_eq!(q.visibility, "direct");
    assert_eq!(
        q.status,
        "@author@elsewhere Chrome Lighthouse reports a a11y score of 0.79999 on this link, \
         FYI.\n\nhttps://page.example/a"
    );
}

#[test]
fn replaying_an_item_reuses_the_idempotency_key() {
    // The same unchanged page is processed twice, as after a crash before
    // the cursor save: both passes derive the same key, so the receiving
    // side deduplicates the second reply.
    let item = linked_item("10", "https://page.example/a");
    let url = "https://page.example/a".to_owned();
    let first = reply_plan(&item, &url, &Score::from_units(50000), INSTANCE).unwrap();
    let second = reply_plan(&item, &url, &Score::from_units(50000), INSTANCE).unwrap();
    assert_eq!(first.idempotency_key, second.idempotency_key);
    assert_eq!(first.idempotency_key, idempotency_key(&"10".to_owned()));
}

#[test]
fn follow_notification_yields_one_follow_back_for_the_account() {
    let item = NotificationItem {
        id: "42".to_owned(),
        account: Account { id: "7".to_owned(), acct: "friend".to_owned() },
    };
    let r = follow_plan(&item, INSTANCE);
    assert_eq!(r.url, "https://social.example/api/v1/accounts/7/follow");
}
