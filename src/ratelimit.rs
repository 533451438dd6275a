use vstd::prelude::*;

use crate::identity::ViolationKind;

verus! {

/// Why a monitor group was created.
#[derive(Clone, Copy, Debug, PartialEq, Eq, Structural)]
pub enum Trigger {
    /// The user posted before anything else was seen of them.
    Message,
    /// The user just joined the room.
    Join,
}

/// The regime of a rate-limit bucket. A bucket moves from `New` to
/// `Established` once and never back.
#[derive(Clone, Copy, Debug, PartialEq, Eq, Structural)]
pub enum Tier {
    New,
    Established,
}

/// Tuning of the rate limiter for one room.
#[derive(Clone, Copy, Debug, PartialEq, Eq, Structural)]
pub struct RateLimitConfig {
    /// Starting tokens of a user first seen posting.
    pub token_new: i64,
    /// Cap of the `New` tier.
    pub token_new_max: i64,
    /// How long a bucket stays in the `New` tier.
    pub token_new_timeout_secs: u64,
    /// Starting tokens of a user first seen joining.
    pub token_join: i64,
    /// Cap of the `Established` tier.
    pub token_join_max: i64,
    /// Tokens added on each refill tick.
    pub fill_rate: u32,
    /// Seconds between refill ticks.
    pub fill_freq_secs: u64,
}

/// A token bucket. The balance may go below zero: it is never reset.
#[derive(Clone, Copy, Debug, PartialEq, Eq, Structural)]
pub struct Bucket {
    pub token_current: i64,
    pub token_max: i64,
    pub fill_rate: u32,
    pub fill_freq_secs: u64,
}

/// The balance after taking `count` tokens, held at the smallest `i64`.
pub open spec fn consumed(tokens: i64, count: u32) -> i64 {
    if tokens - count >= i64::MIN {
        (tokens - count) as i64
    } else {
        i64::MIN
    }
}

/// The balance after adding `count` tokens, capped at `max`.
pub open spec fn filled(tokens: i64, max: i64, count: u32) -> i64 {
    if tokens + count <= max {
        (tokens + count) as i64
    } else {
        max
    }
}

impl Bucket {
    /// The bucket a rate limiter holds before its settings are known.
    pub fn new() -> (r: Bucket)
        ensures
            r.token_current == 3,
            r.token_max == 3,
            r.fill_rate == 3,
            r.fill_freq_secs == 60,
    {
        Bucket { token_current: 3, token_max: 3, fill_rate: 3, fill_freq_secs: 60 }
    }

    /// Takes `count` tokens; true when the balance is still not negative.
    pub fn consume(&mut self, count: u32) -> (ok: bool)
        ensures
            final(self).token_current == consumed(old(self).token_current, count),
            final(self).token_max == old(self).token_max,
            final(self).fill_rate == old(self).fill_rate,
            final(self).fill_freq_secs == old(self).fill_freq_secs,
            ok == (final(self).token_current >= 0),
    {
        let c = count as i64;
        if self.token_current >= i64::MIN + c {
            self.token_current = self.token_current - c;
        } else {
            self.token_current = i64::MIN;
        }
        self.token_current >= 0
    }

    /// Adds `count` tokens, up to the cap.
    pub fn fill(&mut self, count: u32)
        ensures
            final(self).token_current == filled(old(self).token_current, old(self).token_max, count),
            final(self).token_max == old(self).token_max,
            final(self).fill_rate == old(self).fill_rate,
            final(self).fill_freq_secs == old(self).fill_freq_secs,
    {
        let sum = self.token_current as i128 + count as i128;
        if sum <= self.token_max as i128 {
            self.token_current = sum as i64;
        } else {
            self.token_current = self.token_max;
        }
    }
}

/// The rate limiter of one (user, room) pair.
#[derive(Clone, Copy, Debug)]
pub struct RateLimiter {
    pub bucket: Bucket,
    pub tier: Tier,
    /// Seconds covered by the refill ticks so far.
    pub elapsed_secs: u64,
    pub config: RateLimitConfig,
}

/// The bucket a limiter starts with, by trigger.
pub open spec fn initial_bucket(config: RateLimitConfig, trigger: Trigger) -> Bucket {
    Bucket {
        token_current: if trigger == Trigger::Join { config.token_join } else { config.token_new },
        token_max: if trigger == Trigger::Join { config.token_join_max } else { config.token_new_max },
        fill_rate: config.fill_rate,
        fill_freq_secs: config.fill_freq_secs,
    }
}

/// `a + b`, held at the largest `u64`.
pub open spec fn add_capped(a: u64, b: u64) -> u64 {
    if a + b <= u64::MAX {
        (a + b) as u64
    } else {
        u64::MAX
    }
}

/// What one refill tick makes of a limiter.
pub open spec fn ticked(r: RateLimiter) -> RateLimiter {
    let elapsed = add_capped(r.elapsed_secs, r.bucket.fill_freq_secs);
    let tokens = filled(r.bucket.token_current, r.bucket.token_max, r.bucket.fill_rate);
    let upgrade = r.tier == Tier::New && elapsed >= r.config.token_new_timeout_secs;
    RateLimiter {
        bucket: Bucket {
            token_current: tokens,
            token_max: if upgrade { r.config.token_join_max } else { r.bucket.token_max },
            ..r.bucket
        },
        tier: if upgrade { Tier::Established } else { r.tier },
        elapsed_secs: elapsed,
        config: r.config,
    }
}

impl RateLimiter {
    /// A limiter from the merged settings of its room, or `None` when the
    /// rate limiter is disabled there. The first refill tick is due
    /// `bucket.fill_freq_secs` seconds after the start.
    pub fn start(config: Option<RateLimitConfig>, trigger: Trigger) -> (r: Option<RateLimiter>)
        ensures
            config is None <==> r is None,
            config matches Some(c) ==> r == Some(
                RateLimiter {
                    bucket: initial_bucket(c, trigger),
                    tier: Tier::New,
                    elapsed_secs: 0,
                    config: c,
                },
            ),
    {
        match config {
            None => None,
            Some(c) => {
                let join = match trigger {
                    Trigger::Join => true,
                    Trigger::Message => false,
                };
                let bucket = Bucket {
                    token_current: if join { c.token_join } else { c.token_new },
                    token_max: if join { c.token_join_max } else { c.token_new_max },
                    fill_rate: c.fill_rate,
                    fill_freq_secs: c.fill_freq_secs,
                };
                Some(RateLimiter { bucket, tier: Tier::New, elapsed_secs: 0, config: c })
            },
        }
    }

    /// A refill tick: adds `fill_rate` tokens up to the current cap, then moves
    /// to the `Established` tier if the `New` window has run out. Returns the
    /// seconds until the next tick.
    pub fn on_tick(&mut self) -> (next: u64)
        ensures
            *final(self) == ticked(*old(self)),
            next == old(self).bucket.fill_freq_secs,
    {
        let rate = self.bucket.fill_rate;
        self.bucket.fill(rate);
        let step = self.bucket.fill_freq_secs;
        if self.elapsed_secs <= u64::MAX - step {
            self.elapsed_secs = self.elapsed_secs + step;
        } else {
            self.elapsed_secs = u64::MAX;
        }
        let new_tier = match self.tier {
            Tier::New => true,
            Tier::Established => false,
        };
        if new_tier && self.elapsed_secs >= self.config.token_new_timeout_secs {
            self.tier = Tier::Established;
            self.bucket.token_max = self.config.token_join_max;
        }
        step
    }

    /// A message or reaction of the user: takes one token and reports spam
    /// when the balance has gone below zero.
    pub fn on_activity(&mut self) -> (v: Option<ViolationKind>)
        ensures
            final(self).bucket.token_current == consumed(old(self).bucket.token_current, 1),
            final(self).bucket.token_max == old(self).bucket.token_max,
            final(self).bucket.fill_rate == old(self).bucket.fill_rate,
            final(self).bucket.fill_freq_secs == old(self).bucket.fill_freq_secs,
            final(self).tier == old(self).tier,
            final(self).elapsed_secs == old(self).elapsed_secs,
            final(self).config == old(self).config,
            v == (if final(self).bucket.token_current < 0 {
                Some(ViolationKind::Spam)
            } else {
                None
            }),
    {
        if self.bucket.consume(1) {
            None
        } else {
            Some(ViolationKind::Spam)
        }
    }
}

/// `n` refill ticks in a row.
pub open spec fn ticks(r: RateLimiter, n: nat) -> RateLimiter
    decreases n,
{
    if n == 0 {
        r
    } else {
        ticks(ticked(r), (n - 1) as nat)
    }
}

/// The tier upgrade is one-way: once a limiter is in the `Established` tier
/// with that tier's cap, no number of later ticks brings back the cap of the
/// `New` tier.
pub proof fn lemma_tier_upgrade_one_way(r: RateLimiter, n: nat)
    requires
        r.tier == Tier::Established,
        r.bucket.token_max == r.config.token_join_max,
    ensures
        ticks(r, n).tier == Tier::Established,
        ticks(r, n).bucket.token_max == r.config.token_join_max,
        ticks(r, n).config == r.config,
    decreases n,
{
    if n > 0 {
        lemma_tier_upgrade_one_way(ticked(r), (n - 1) as nat);
    }
}

} // verus!
