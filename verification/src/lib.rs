//! Decision core of a small social-network accessibility bot.
//!
//! Two pollers walk a feed page by page, resuming from a persisted cursor:
//! one audits links found on the home timeline and replies when a link's
//! accessibility score is poor, the other follows back new followers.
//! Everything that decides — which items to skip, when a score warrants a
//! reply, how the cursor advances and when it may be persisted, the exact
//! requests to issue and the idempotency key that keeps retried replies
//! deduplicated — lives here, verified. The surrounding process (HTTP,
//! files, timers) drives these functions and performs the actions.

use vstd::prelude::*;

mod cycle;
mod items;
mod plan;
mod score;
mod store;
mod text;

pub use items::Account;
pub use items::Card;
pub use items::Config;
pub use items::NotificationItem;
pub use items::TimelineItem;
pub use cycle::CycleState;
pub use cycle::cursor_after;
pub use cycle::lemma_cursor_rests_on_latest_nonempty;
pub use cycle::lemma_full_cycle_two_pages;
pub use cycle::lemma_item_failure_is_local;
pub use cycle::notification_ids;
pub use cycle::page_cursor;
pub use cycle::timeline_ids;
pub use plan::FetchRequest;
pub use plan::FollowRequest;
pub use plan::ReplyRequest;
pub use plan::ScoreRequest;
pub use plan::audit_plan;
pub use plan::audit_skipped;
pub use plan::audited_url;
pub use plan::follow_plan;
pub use plan::idem_key;
pub use plan::idempotency_key;
pub use plan::lemma_replay_reply_key;
pub use plan::notifications_fetch;
pub use plan::reply_plan;
pub use plan::reply_text_spec;
pub use plan::timeline_fetch;
pub use score::REPLY_THRESHOLD_UNITS;
pub use score::SCORE_SCALE;
pub use score::Score;
pub use score::score_text;
pub use store::CursorError;
pub use store::decode_cursor;
pub use store::default_cursor;
pub use store::encode_cursor;
pub use store::encoded;
pub use store::lemma_cursor_round_trip;
pub use store::parse_cursor;

verus! {

/// Seconds the status poller sleeps between audit cycles.
pub const STATUS_POLL_INTERVAL_SECS: u64 = 120;

/// Seconds the follower poller sleeps between cycles; shorter than the
/// status poller's, so follow-backs come promptly.
pub const FOLLOWER_POLL_INTERVAL_SECS: u64 = 60;

} // verus!
