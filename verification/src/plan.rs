//! What each poller asks the outside world to do, stated as plain request
//! records: which page to fetch, which link to score, which reply or
//! follow-back to post. The caller turns a record into one HTTP call; every
//! field, down to the idempotency key that keeps a retried reply from
//! doubling, is fixed here.

use vstd::prelude::*;
use vstd::string::*;

use crate::items::NotificationItem;
use crate::items::TimelineItem;
use crate::score::REPLY_THRESHOLD_UNITS;
use crate::score::Score;
use crate::score::score_text;

verus! {

/// One page request against a feed endpoint: `url`, with `min_id` bounding
/// the page to items newer than the cursor.
pub struct FetchRequest {
    pub url: String,
    pub min_id: String,
}

/// One audit request against the scoring service.
pub struct ScoreRequest {
    /// The service endpoint, already asking for the accessibility category.
    pub endpoint: String,
    /// The link to score.
    pub target_url: String,
    /// Service key to send along, when the configuration holds one.
    pub api_key: Option<String>,
}

/// One reply to post: a direct status under the audited item.
pub struct ReplyRequest {
    pub url: String,
    /// Deduplication key the receiving service honours across retries.
    pub idempotency_key: String,
    /// The reply's text.
    pub status: String,
    /// The item replied to.
    pub in_reply_to_id: String,
    /// Always the direct, author-only visibility.
    pub visibility: String,
}

/// One follow-back request.
pub struct FollowRequest {
    pub url: String,
}

/// Whether the audit passes a timeline item over: no link card, a card
/// without a URL, a reply, or a reblog — none of these is new original
/// content carrying a link.
pub open spec fn audit_skipped(item: TimelineItem) -> bool {
    ||| item.card is None
    ||| item.card->0.url is None
    ||| item.in_reply_to_id is Some
    ||| item.reblog
}

/// The link a non-skipped item is audited for.
pub open spec fn audited_url(item: TimelineItem) -> Seq<char> {
    item.card->0.url->0@
}

/// The deduplication key for a reply to the item with this identifier: a
/// fixed scheme-and-version tag, then the identifier. Re-processing an item
/// — after a crash before the cursor was saved — derives the same key, and
/// the receiving service drops the duplicate.
pub open spec fn idem_key(id: Seq<char>) -> Seq<char> {
    "a11y-v2-"@ + id
}

/// The text of a reply: it names the poster, states the score, and repeats
/// the link.
pub open spec fn reply_text_spec(acct: Seq<char>, units: int, url: Seq<char>) -> Seq<char> {
    "@"@ + acct + " Chrome Lighthouse reports a a11y score of "@ + score_text(units)
        + " on this link, FYI.\n\n"@ + url
}

/// The page request for the home timeline, resuming after `cursor`.
pub fn timeline_fetch(instance: &str, cursor: &String) -> (r: FetchRequest)
    ensures
        r.url@ == instance@ + "/api/v1/timelines/home?limit=40"@,
        r.min_id@ == cursor@,
{
    let mut url = instance.to_owned();
    url.append("/api/v1/timelines/home?limit=40");
    FetchRequest { url, min_id: cursor.clone() }
}

/// The page request for follow notifications, resuming after `cursor`.
pub fn notifications_fetch(instance: &str, cursor: &String) -> (r: FetchRequest)
    ensures
        r.url@ == instance@ + "/api/v1/notifications?limit=30&types[]=follow"@,
        r.min_id@ == cursor@,
{
    let mut url = instance.to_owned();
    url.append("/api/v1/notifications?limit=30&types[]=follow");
    FetchRequest { url, min_id: cursor.clone() }
}

/// Decides whether a timeline item is audited: `None` exactly for the items
/// [`audit_skipped`] names, with the scorer left alone; otherwise the audit
/// request for the item's link, carrying the configured key only when one is
/// set.
pub fn audit_plan(item: &TimelineItem, api_key: &String) -> (r: Option<ScoreRequest>)
    ensures
        r is Some <==> !audit_skipped(*item),
        r matches Some(q) ==> {
            &&& q.endpoint@ == "https://www.googleapis.com/pagespeedonline/v5/runPagespeed?category=accessibility"@
            &&& q.target_url@ == audited_url(*item)
            &&& (q.api_key is Some <==> api_key@.len() > 0)
            &&& (q.api_key matches Some(k) ==> k@ == api_key@)
        },
{
    let card = match &item.card {
        None => {
            return None;
        },
        Some(c) => c,
    };
    let url = match &card.url {
        None => {
            return None;
        },
        Some(u) => u,
    };
    if item.in_reply_to_id.is_some() {
        return None;
    }
    if item.reblog {
        return None;
    }
    let key: Option<String> = if api_key.as_str().is_empty() {
        None
    } else {
        Some(api_key.clone())
    };
    Some(
        ScoreRequest {
            endpoint: String::from_str(
                "https://www.googleapis.com/pagespeedonline/v5/runPagespeed?category=accessibility",
            ),
            target_url: url.clone(),
            api_key: key,
        },
    )
}

/// Decides whether a scored link draws a reply: `None` exactly when the
/// score reaches the threshold; otherwise the full reply request — direct
/// visibility, addressed under the item, keyed by [`idem_key`] so a replay
/// cannot double it.
pub fn reply_plan(item: &TimelineItem, link_url: &String, score: &Score, instance: &str) -> (r:
    Option<ReplyRequest>)
    requires
        score.wf(),
    ensures
        r is Some <==> score.units < REPLY_THRESHOLD_UNITS,
        r matches Some(q) ==> {
            &&& q.url@ == instance@ + "/api/v1/statuses"@
            &&& q.idempotency_key@ == idem_key(item.id@)
            &&& q.status@ == reply_text_spec(item.account.acct@, score.units as int, link_url@)
            &&& q.in_reply_to_id@ == item.id@
            &&& q.visibility@ == "direct"@
        },
{
    if score.is_acceptable() {
        return None;
    }
    let mut url = instance.to_owned();
    url.append("/api/v1/statuses");
    let mut status = String::from_str("@");
    status.append(item.account.acct.as_str());
    status.append(" Chrome Lighthouse reports a a11y score of ");
    let rendered = score.render();
    status.append(rendered.as_str());
    status.append(" on this link, FYI.\n\n");
    status.append(link_url.as_str());
    Some(
        ReplyRequest {
            url,
            idempotency_key: idempotency_key(&item.id),
            status,
            in_reply_to_id: item.id.clone(),
            visibility: String::from_str("direct"),
        },
    )
}

/// The deduplication key for a reply to the item with identifier `id`.
pub fn idempotency_key(id: &String) -> (r: String)
    ensures
        r@ == idem_key(id@),
{
    let mut key = String::from_str("a11y-v2-");
    key.append(id.as_str());
    key
}

/// The follow-back request one follow notification calls for: one POST
/// against the relationship endpoint of the account that followed.
pub fn follow_plan(item: &NotificationItem, instance: &str) -> (r: FollowRequest)
    ensures
        r.url@ == instance@ + "/api/v1/accounts/"@ + item.account.id@ + "/follow"@,
{
    let mut url = instance.to_owned();
    url.append("/api/v1/accounts/");
    url.append(item.account.id.as_str());
    url.append("/follow");
    FollowRequest { url }
}

/// Law: the idempotency key is a function of the item identifier alone. Two
/// passes over the same item — the replay a crash before the cursor save
/// forces — derive the same key, whatever else changed between them, so the
/// receiving service sees the retry as the duplicate it is.
pub proof fn lemma_replay_reply_key(i1: TimelineItem, i2: TimelineItem)
    requires
        i1.id@ == i2.id@,
    ensures
        idem_key(i1.id@) == idem_key(i2.id@),
{
}

} // verus!
