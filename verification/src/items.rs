//! The records the pollers work over: feed items and the process-wide
//! configuration, reduced to the fields the decision logic reads.

use vstd::prelude::*;

verus! {

/// Author of a timeline item, or subject of a follow notification.
pub struct Account {
    /// Account identifier as the instance reports it.
    pub id: String,
    /// Handle used when addressing the account in a reply.
    pub acct: String,
}

/// Link-preview card attached to a timeline item; the URL may be absent.
pub struct Card {
    pub url: Option<String>,
}

/// One home-timeline entry, as far as the audit decision reads it.
pub struct TimelineItem {
    /// Item identifier; also the cursor value once this item is the newest seen.
    pub id: String,
    /// Link card, if the item carries one.
    pub card: Option<Card>,
    /// Identifier of the item this one replies to, if any.
    pub in_reply_to_id: Option<String>,
    /// Whether the item is a reblog of another item.
    pub reblog: bool,
    pub account: Account,
}

/// One follow notification.
pub struct NotificationItem {
    /// Notification identifier; also the cursor value once this is the newest seen.
    pub id: String,
    /// The account that followed.
    pub account: Account,
}

/// Process-wide configuration, read once at startup and immutable afterwards.
pub struct Config {
    /// Key for the audit service; empty means "call without a key".
    pub pagespeed_api_key: String,
    /// Bearer token for the instance; carried on every instance request.
    pub mastodon_access_token: String,
    /// Base URL of the instance, without a trailing slash.
    pub instance: String,
}

} // verus!
