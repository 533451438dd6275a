//! Per-user behavioural moderation for chat rooms.
//!
//! For every (user, room) pair that becomes active a monitor group runs a
//! rate limiter, a link-spam detector and, for users who just joined, a
//! challenge.  Each of these is a state machine here: the caller feeds it
//! events and timer ticks and carries out the actions it returns.
mod challenge;
mod config;
mod group;
mod identity;
mod link_spam;
mod matrix_id;
mod moderation;
mod ratelimit;
mod router;
mod supervision;

pub use challenge::{
    answer_glyph, challenge_html, challenge_text, choose_question, compose_challenge, draw_question,
    option_glyphs, CaptchaConfig, CaptchaQuestion, ChallengeMessage, ChallengeMonitor, ChallengePhase, ChallengeStep,
};
pub use config::{ModerationConfig, MonitorConfig, RoomConfig, RoomEntry};
pub use group::{Child, GroupClock, MonitorGroup, HEARTBEAT_SECS, IDLE_TICKS};
pub use identity::{UserRoomId, Violation, ViolationKind};
pub use link_spam::{contains_link, LinkSpamConfig, LinkSpamDetector};
pub use moderation::{kick_reason, moderate, KickOrder};
pub use ratelimit::{Bucket, RateLimitConfig, RateLimiter, Tier, Trigger};
pub use router::{screen_event, screen_sender, Claim, DropReason, Registry, RegistryEntry, RoomEvent, RouteAction, MAX_EVENT_DELAY_MS};
pub use supervision::{RestartPolicy, Singleton};
