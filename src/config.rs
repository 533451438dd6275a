use vstd::prelude::*;

use crate::challenge::CaptchaConfig;
use crate::link_spam::LinkSpamConfig;
use crate::ratelimit::RateLimitConfig;

verus! {

/// Settings of each monitor kind; `None` leaves that kind to the level above,
/// or disables it at the top.
#[derive(Clone, Debug)]
pub struct MonitorConfig {
    pub rate_limit: Option<RateLimitConfig>,
    pub link_spam: Option<LinkSpamConfig>,
    pub captcha: Option<CaptchaConfig>,
}

/// The settings of one room: a bare switch, which keeps the global settings,
/// or overrides per monitor kind. Neither switch turns monitors off: a room
/// without an override of a kind runs it with the global settings.
#[derive(Clone, Debug)]
pub enum RoomConfig {
    RoomEnabled(bool),
    RoomDetail { enabled: bool, monitors: MonitorConfig },
}

/// A room and its settings.
#[derive(Clone, Debug)]
pub struct RoomEntry {
    pub room_id: String,
    pub config: RoomConfig,
}

/// Global monitor settings and the rooms that override them.
#[derive(Clone, Debug)]
pub struct ModerationConfig {
    pub monitors: MonitorConfig,
    pub rooms: Vec<RoomEntry>,
}

/// `i` is the first entry of `rooms` for `room_id`.
pub open spec fn first_room_at(rooms: Seq<RoomEntry>, room_id: Seq<char>, i: int) -> bool {
    &&& 0 <= i < rooms.len()
    &&& rooms[i].room_id@ == room_id
    &&& forall|j: int| 0 <= j < i ==> (#[trigger] rooms[j]).room_id@ != room_id
}

/// The overrides that the room's own settings give, if any.
pub open spec fn room_monitors(rooms: Seq<RoomEntry>, room_id: Seq<char>) -> Option<MonitorConfig> {
    if exists|i: int| first_room_at(rooms, room_id, i) {
        let i = choose|i: int| first_room_at(rooms, room_id, i);
        match rooms[i].config {
            RoomConfig::RoomDetail { monitors, .. } => Some(monitors),
            RoomConfig::RoomEnabled(_) => None,
        }
    } else {
        None
    }
}

/// The room's override if it has one, else the global setting.
pub open spec fn merged<T>(room: Option<T>, global: Option<T>) -> Option<T> {
    if room is Some {
        room
    } else {
        global
    }
}

pub open spec fn rate_limit_of(c: ModerationConfig, room_id: Seq<char>) -> Option<RateLimitConfig> {
    merged(
        match room_monitors(c.rooms@, room_id) {
            Some(m) => m.rate_limit,
            None => None,
        },
        c.monitors.rate_limit,
    )
}

pub open spec fn link_spam_of(c: ModerationConfig, room_id: Seq<char>) -> Option<LinkSpamConfig> {
    merged(
        match room_monitors(c.rooms@, room_id) {
            Some(m) => m.link_spam,
            None => None,
        },
        c.monitors.link_spam,
    )
}

pub open spec fn captcha_of(c: ModerationConfig, room_id: Seq<char>) -> Option<CaptchaConfig> {
    merged(
        match room_monitors(c.rooms@, room_id) {
            Some(m) => m.captcha,
            None => None,
        },
        c.monitors.captcha,
    )
}

impl ModerationConfig {
    /// The position of the first entry for `room_id`.
    fn room_position(&self, room_id: &String) -> (r: Option<usize>)
        ensures
            r is None <==> !exists|i: int| first_room_at(self.rooms@, room_id@, i),
            r matches Some(i) ==> first_room_at(self.rooms@, room_id@, i as int),
    {
        let mut i: usize = 0;
        while i < self.rooms.len()
            invariant
                i <= self.rooms.len(),
                forall|j: int| 0 <= j < i ==> (#[trigger] self.rooms@[j]).room_id@ != room_id@,
            decreases self.rooms.len() - i,
        {
            if self.rooms[i].room_id == *room_id {
                assert(first_room_at(self.rooms@, room_id@, i as int));
                return Some(i);
            }
            i = i + 1;
        }
        None
    }

    /// The overrides of the room, if it has detailed settings.
    fn room_overrides(&self, room_id: &String) -> (r: Option<&MonitorConfig>)
        ensures
            match r {
                Some(m) => room_monitors(self.rooms@, room_id@) == Some(*m),
                None => room_monitors(self.rooms@, room_id@) is None,
            },
    {
        match self.room_position(room_id) {
            None => None,
            Some(i) => {
                proof {
                    let j = choose|j: int| first_room_at(self.rooms@, room_id@, j);
                    assert(j == i as int) by {
                        if j < i {
                            assert(self.rooms@[j].room_id@ != room_id@);
                        } else if j > i {
                            assert(self.rooms@[i as int].room_id@ != room_id@);
                        }
                    }
                }
                match &self.rooms[i].config {
                    RoomConfig::RoomDetail { monitors, .. } => Some(monitors),
                    RoomConfig::RoomEnabled(_) => None,
                }
            },
        }
    }

    /// The rate-limit settings of a room: its own if it overrides them, else
    /// the global ones; `None` means disabled.
    pub fn rate_limit_for(&self, room_id: &String) -> (r: Option<RateLimitConfig>)
        ensures
            r == rate_limit_of(*self, room_id@),
    {
        match self.room_overrides(room_id) {
            Some(m) if m.rate_limit.is_some() => m.rate_limit,
            _ => self.monitors.rate_limit,
        }
    }

    /// The link-spam settings of a room, merged the same way.
    pub fn link_spam_for(&self, room_id: &String) -> (r: Option<LinkSpamConfig>)
        ensures
            r == link_spam_of(*self, room_id@),
    {
        match self.room_overrides(room_id) {
            Some(m) if m.link_spam.is_some() => m.link_spam,
            _ => self.monitors.link_spam,
        }
    }

    /// The challenge settings of a room, merged the same way.
    pub fn captcha_for(&self, room_id: &String) -> (r: Option<&CaptchaConfig>)
        ensures
            match r {
                Some(c) => captcha_of(*self, room_id@) == Some(*c),
                None => captcha_of(*self, room_id@) is None,
            },
    {
        match self.room_overrides(room_id) {
            Some(m) if m.captcha.is_some() => m.captcha.as_ref(),
            _ => self.monitors.captcha.as_ref(),
        }
    }
}

} // verus!
