use a11y_bot::Account;
use a11y_bot::CycleState;
use a11y_bot::NotificationItem;
use a11y_bot::TimelineItem;

fn plain_item(id: &str) -> TimelineItem {
    TimelineItem {
        id: id.to_owned(),
        card: None,
        in_reply_to_id: None,
        reblog: false,
        account: Account { id: "9".to_owned(), acct: "someone".to_owned() },
    }
}

#[test]
fn full_cycle_persists_first_id_of_last_nonempty_page() {
    // Two pages arrive: a non-empty one, then the empty page that ends the
    // sweep. The cursor comes to rest on the first item of the first page.
    let mut state = CycleState::start("1".to_owned());
    let page = vec![plain_item("58"), plain_item("57"), plain_item("56")];
    let empty_page: Vec<TimelineItem> = Vec::new();

    let mut presented: Vec<String> = Vec::new();
    let done1 = state.on_timeline_page(&page);
    for item in &page {
        presented.push(item.id.clone());
    }
    assert!(!done1);
    let done2 = state.on_timeline_page(&empty_page);
    assert!(done2);

    assert_eq!(state.cursor, "58");
    assert_eq!(state.count, 3);
    assert_eq!(presented, vec!["58".to_owned(), "57".to_owned(), "56".to_owned()]);
    assert_eq!(state.save_content(), "\"58\"");
}

#[test]
fn immediately_empty_page_keeps_pre_cycle_cursor() {
    let mut state = CycleState::start("17".to_owned());
    let empty: Vec<TimelineItem> = Vec::new();
    let done = state.on_timeline_page(&empty);
    assert!(done);
    assert_eq!(state.cursor, "17");
    assert_eq!(state.count, 0);
    assert_eq!(state.save_content(), "\"17\"");
}

#[test]
fn scorer_error_for_one_item_leaves_cycle_on_course() {
    // The second item of the page "fails" in its handler. The cycle state
    // never hears of it beyond note_item_failure, so the cursor still
    // advances past the failed item and the later items are still presented.
    let mut state = CycleState::start("1".to_owned());
    let page = vec![plain_item("30"), plain_item("29"), plain_item("28")];

    let done = state.on_timeline_page(&page);
    assert!(!done);
    let mut handled: Vec<String> = Vec::new();
    for (k, item) in page.iter().enumerate() {
        if k == 1 {
            state.note_item_failure();
        } else {
            handled.push(item.id.clone());
        }
    }
    let empty: Vec<TimelineItem> = Vec::new();
    assert!(state.on_timeline_page(&empty));

    assert_eq!(state.cursor, "30");
    assert_eq!(state.count, 3);
    assert_eq!(handled, vec!["30".to_owned(), "28".to_owned()]);
    assert_eq!(state.save_content(), "\"30\"");
}

#[test]
fn failed_fetch_of_second_page_persists_nothing() {
    // Page one arrives; the fetch of page two fails. Following the cycle
    // protocol the state is dropped without reaching save_content, so the
    // store keeps the pre-cycle value and the next cycle re-fetches from it.
    let persisted = "\"9\"".to_owned();
    let mut state = CycleState::start("9".to_owned());
    let page = vec![plain_item("12")];
    let done = state.on_timeline_page(&page);
    assert!(!done);
    // The fetch of the next page fails here: the sweep never completes, so
    // save_content is never reached and the state is dropped.
    drop(state);
    assert_eq!(persisted, "\"9\"");
}

#[test]
fn notification_page_advances_like_a_timeline_page() {
    let mut state = CycleState::start("1".to_owned());
    let page = vec![
        NotificationItem {
            id: "42".to_owned(),
            account: Account { id: "7".to_owned(), acct: "friend".to_owned() },
        },
        NotificationItem {
            id: "41".to_owned(),
            account: Account { id: "8".to_owned(), acct: "other".to_owned() },
        },
    ];
    let done = state.on_notification_page(&page);
    assert!(!done);
    assert_eq!(state.cursor, "42");
    assert_eq!(state.count, 2);
    let empty: Vec<NotificationItem> = Vec::new();
    assert!(state.on_notification_page(&empty));
    assert_eq!(state.save_content(), "\"42\"");
}
