use vstd::prelude::*;

use crate::matrix_id::{host_of, is_user_id, user_host};
use crate::ratelimit::Trigger;

verus! {

/// Events older than this, in milliseconds, are dropped before routing.
pub const MAX_EVENT_DELAY_MS: u64 = 10_000;

/// Why an inbound event is dropped before it reaches the router.
#[derive(Clone, Copy, Debug, PartialEq, Eq, Structural)]
pub enum DropReason {
    TooOld,
    Bridged,
    OwnEvent,
}

/// `s` is one of `list`.
pub open spec fn listed(list: Seq<String>, s: Seq<char>) -> bool {
    exists|i: int| 0 <= i < list.len() && (#[trigger] list[i])@ == s
}

/// Milliseconds from `origin_ms` to `now_ms`, zero when the origin lies ahead.
pub open spec fn delay(now_ms: u64, origin_ms: u64) -> int {
    if now_ms >= origin_ms {
        now_ms - origin_ms
    } else {
        0
    }
}

fn is_listed(list: &Vec<String>, s: &String) -> (r: bool)
    ensures
        r == listed(list@, s@),
{
    let mut i: usize = 0;
    while i < list.len()
        invariant
            i <= list.len(),
            forall|k: int| 0 <= k < i ==> (#[trigger] list@[k])@ != s@,
        decreases list.len() - i,
    {
        if list[i] == *s {
            return true;
        }
        i = i + 1;
    }
    false
}

/// The host of the server of `sender`, when it is a valid user id.
pub open spec fn sender_host_of(sender: Seq<char>) -> Option<Seq<char>> {
    if is_user_id(sender) {
        Some(host_of(sender))
    } else {
        None
    }
}

/// Decides whether an event of `sender` is dropped before routing, finding
/// the server of the sender from the user id.
pub fn screen_sender(
    now_ms: u64,
    origin_ms: u64,
    sender: &String,
    bot_user_id: &String,
    excluded_hosts: &Vec<String>,
) -> (r: Option<DropReason>)
    ensures
        r == (if delay(now_ms, origin_ms) > MAX_EVENT_DELAY_MS {
            Some(DropReason::TooOld)
        } else if sender_host_of(sender@) matches Some(h) && listed(excluded_hosts@, h) {
            Some(DropReason::Bridged)
        } else if sender@ == bot_user_id@ {
            Some(DropReason::OwnEvent)
        } else {
            None
        }),
{
    let host = user_host(sender.as_str());
    screen_event(now_ms, origin_ms, sender, &host, bot_user_id, excluded_hosts)
}

/// Decides whether an event is dropped before routing: too old, sent from the
/// server of an excluded bridge, or sent by the bot itself, in that order.
pub fn screen_event(
    now_ms: u64,
    origin_ms: u64,
    sender: &String,
    sender_host: &Option<String>,
    bot_user_id: &String,
    excluded_hosts: &Vec<String>,
) -> (r: Option<DropReason>)
    ensures
        r == (if delay(now_ms, origin_ms) > MAX_EVENT_DELAY_MS {
            Some(DropReason::TooOld)
        } else if sender_host is Some && listed(excluded_hosts@, sender_host->0@) {
            Some(DropReason::Bridged)
        } else if sender@ == bot_user_id@ {
            Some(DropReason::OwnEvent)
        } else {
            None
        }),
{
    let late = if now_ms >= origin_ms {
        now_ms - origin_ms
    } else {
        0
    };
    if late > MAX_EVENT_DELAY_MS {
        Some(DropReason::TooOld)
    } else if match sender_host {
        Some(h) => is_listed(excluded_hosts, h),
        None => false,
    } {
        Some(DropReason::Bridged)
    } else if *sender == *bot_user_id {
        Some(DropReason::OwnEvent)
    } else {
        None
    }
}

/// One key of the registry and the group that holds it.
#[derive(Clone, Debug)]
pub struct RegistryEntry {
    pub key: String,
    pub group: u64,
}

/// The live monitor groups, by key. A key is claimed before its group is
/// started and released when the group has ended, so that a key never has
/// two live groups.
pub struct Registry {
    entries: Vec<RegistryEntry>,
    next_group: u64,
    map: Ghost<Map<Seq<char>, u64>>,
}

/// The answer to a claim.
#[derive(Clone, Copy, Debug, PartialEq, Eq, Structural)]
pub enum Claim {
    /// The key already has this group.
    Existing(u64),
    /// The key was free and now belongs to this new group.
    Claimed(u64),
    /// No group number is left.
    Exhausted,
}

/// What the router does with an event.
#[derive(Clone, Copy, Debug, PartialEq, Eq, Structural)]
pub enum RouteAction {
    /// Hand the event to this running group.
    Forward(u64),
    /// Start this group with the trigger, then hand it the event if `forward`.
    Spawn { group: u64, trigger: Trigger, forward: bool },
    /// Stop this group.
    Stop(u64),
    /// Nothing to do.
    Ignore,
}

/// What happened in a room, as the router sees it.
#[derive(Clone, Copy, Debug, PartialEq, Eq, Structural)]
pub enum RoomEvent {
    Message,
    Reaction,
    Joined,
    Left,
}

impl Registry {
    /// The groups by key.
    pub closed spec fn view(&self) -> Map<Seq<char>, u64> {
        self.map@
    }

    /// The number that the next claimed group gets.
    pub closed spec fn next_group_spec(&self) -> u64 {
        self.next_group
    }

    /// Each key appears once, and each group number is below the next one.
    pub closed spec fn wf(&self) -> bool {
        &&& forall|i: int, j: int|
            0 <= i < j < self.entries.len() ==> (#[trigger] self.entries@[i]).key@
                != (#[trigger] self.entries@[j]).key@
        &&& forall|i: int|
            0 <= i < self.entries.len() ==> self.map@.contains_key(
                (#[trigger] self.entries@[i]).key@,
            ) && self.map@[self.entries@[i].key@] == self.entries@[i].group
        &&& forall|k: Seq<char>|
            #[trigger] self.map@.contains_key(k) ==> exists|i: int|
                0 <= i < self.entries.len() && (#[trigger] self.entries@[i]).key@ == k
        &&& forall|k: Seq<char>| #[trigger]
            self.map@.contains_key(k) ==> self.map@[k] < self.next_group
    }

    /// An empty registry.
    pub fn new() -> (r: Registry)
        ensures
            r.wf(),
            r@ == Map::<Seq<char>, u64>::empty(),
            r.next_group_spec() == 0,
    {
        Registry { entries: Vec::new(), next_group: 0, map: Ghost(Map::empty()) }
    }

    fn position(&self, key: &String) -> (r: Option<usize>)
        requires
            self.wf(),
        ensures
            r is None <==> !self@.contains_key(key@),
            r matches Some(i) ==> i < self.entries.len() && self.entries@[i as int].key@ == key@,
    {
        let mut i: usize = 0;
        while i < self.entries.len()
            invariant
                self.wf(),
                i <= self.entries.len(),
                forall|k: int| 0 <= k < i ==> (#[trigger] self.entries@[k]).key@ != key@,
            decreases self.entries.len() - i,
        {
            if self.entries[i].key == *key {
                return Some(i);
            }
            i = i + 1;
        }
        None
    }

    /// The group that holds `key`, if any.
    pub fn lookup(&self, key: &String) -> (r: Option<u64>)
        requires
            self.wf(),
        ensures
            r == (if self@.contains_key(key@) {
                Some(self@[key@])
            } else {
                None
            }),
    {
        match self.position(key) {
            Some(i) => Some(self.entries[i].group),
            None => None,
        }
    }

    /// Claims `key` for a new group unless a group holds it already.
    pub fn claim(&mut self, key: &String) -> (r: Claim)
        requires
            old(self).wf(),
        ensures
            final(self).wf(),
            (r, final(self)@) == claimed(old(self)@, old(self).next_group_spec(), key@),
            forall|k: Seq<char>| #[trigger]
                old(self)@.contains_key(k) ==> old(self)@[k] < old(self).next_group_spec(),
            final(self).next_group_spec() == (if r is Claimed {
                (old(self).next_group_spec() + 1) as u64
            } else {
                old(self).next_group_spec()
            }),
    {
        match self.position(key) {
            Some(i) => Claim::Existing(self.entries[i].group),
            None => {
                if self.next_group == u64::MAX {
                    return Claim::Exhausted;
                }
                let group = self.next_group;
                let ghost old_entries = self.entries@;
                self.entries.push(RegistryEntry { key: key.clone(), group });
                self.next_group = group + 1;
                self.map = Ghost(self.map@.insert(key@, group));
                assert forall|k: Seq<char>| #[trigger] self.map@.contains_key(k) implies exists|i: int|
                    0 <= i < self.entries.len() && (#[trigger] self.entries@[i]).key@ == k by {
                    if k != key@ {
                        let i = choose|i: int|
                            0 <= i < old_entries.len() && (#[trigger] old_entries[i]).key@ == k;
                        assert(self.entries@[i] == old_entries[i]);
                    } else {
                        assert(self.entries@[old_entries.len() as int].key@ == k);
                    }
                }
                Claim::Claimed(group)
            },
        }
    }

    /// Releases `key` if `group` still holds it: a group that has ended frees
    /// its key, and never the key of a later group.
    pub fn release(&mut self, key: &String, group: u64) -> (released: bool)
        requires
            old(self).wf(),
        ensures
            final(self).wf(),
            released == (old(self)@.contains_key(key@) && old(self)@[key@] == group),
            final(self)@ == (if released {
                old(self)@.remove(key@)
            } else {
                old(self)@
            }),
            final(self).next_group_spec() == old(self).next_group_spec(),
    {
        match self.position(key) {
            None => false,
            Some(i) => {
                if self.entries[i].group != group {
                    return false;
                }
                let ghost old_entries = self.entries@;
                let _ = self.entries.swap_remove(i);
                self.map = Ghost(self.map@.remove(key@));
                proof {
                    assert forall|a: int, b: int|
                        0 <= a < b < self.entries.len() implies (#[trigger] self.entries@[a]).key@
                        != (#[trigger] self.entries@[b]).key@ by {
                        let last = old_entries.len() - 1;
                        let oa = if a == i { last } else { a };
                        let ob = if b == i { last } else { b };
                        assert(self.entries@[a] == old_entries[oa]);
                        assert(self.entries@[b] == old_entries[ob]);
                    }
                    assert forall|a: int| 0 <= a < self.entries.len() implies self.map@.contains_key(
                        (#[trigger] self.entries@[a]).key@,
                    ) && self.map@[self.entries@[a].key@] == self.entries@[a].group by {
                        let last = old_entries.len() - 1;
                        let oa = if a == i { last } else { a };
                        assert(self.entries@[a] == old_entries[oa]);
                        assert(oa != i);
                    }
                    assert forall|k: Seq<char>| #[trigger] self.map@.contains_key(k) implies exists|
                        a: int,
                    | 0 <= a < self.entries.len() && (#[trigger] self.entries@[a]).key@ == k by {
                        let o = choose|o: int|
                            0 <= o < old_entries.len() && (#[trigger] old_entries[o]).key@ == k;
                        assert(o != i);
                        let last = old_entries.len() - 1;
                        if o == last {
                            assert(self.entries@[i as int] == old_entries[o]);
                        } else {
                            assert(self.entries@[o] == old_entries[o]);
                        }
                    }
                }
                true
            },
        }
    }

    /// Routes an event of the user whose key is `key`. A message or reaction
    /// goes to the key's group, which is first started (trigger `Message`) if
    /// there is none. A join starts a group (trigger `Join`) if there is none.
    /// A departure stops the key's group, if any.
    pub fn route(&mut self, key: &String, event: RoomEvent) -> (r: RouteAction)
        requires
            old(self).wf(),
        ensures
            final(self).wf(),
            final(self).next_group_spec() == (if r is Spawn {
                (old(self).next_group_spec() + 1) as u64
            } else {
                old(self).next_group_spec()
            }),
            ({
                let live = old(self)@.contains_key(key@);
                let fresh = old(self).next_group_spec();
                match event {
                    RoomEvent::Message | RoomEvent::Reaction => if live {
                        r == RouteAction::Forward(old(self)@[key@]) && final(self)@ == old(self)@
                    } else if fresh < u64::MAX {
                        &&& r == (RouteAction::Spawn {
                            group: fresh,
                            trigger: Trigger::Message,
                            forward: true,
                        })
                        &&& final(self)@ == old(self)@.insert(key@, fresh)
                    } else {
                        r == RouteAction::Ignore && final(self)@ == old(self)@
                    },
                    RoomEvent::Joined => if live {
                        r == RouteAction::Ignore && final(self)@ == old(self)@
                    } else if fresh < u64::MAX {
                        &&& r == (RouteAction::Spawn {
                            group: fresh,
                            trigger: Trigger::Join,
                            forward: false,
                        })
                        &&& final(self)@ == old(self)@.insert(key@, fresh)
                    } else {
                        r == RouteAction::Ignore && final(self)@ == old(self)@
                    },
                    RoomEvent::Left => {
                        &&& final(self)@ == old(self)@
                        &&& r == (if live {
                            RouteAction::Stop(old(self)@[key@])
                        } else {
                            RouteAction::Ignore
                        })
                    },
                }
            }),
    {
        match event {
            RoomEvent::Left => match self.lookup(key) {
                Some(g) => RouteAction::Stop(g),
                None => RouteAction::Ignore,
            },
            RoomEvent::Joined => match self.claim(key) {
                Claim::Existing(_) => RouteAction::Ignore,
                Claim::Claimed(g) => RouteAction::Spawn { group: g, trigger: Trigger::Join, forward: false },
                Claim::Exhausted => RouteAction::Ignore,
            },
            _ => match self.claim(key) {
                Claim::Existing(g) => RouteAction::Forward(g),
                Claim::Claimed(g) => RouteAction::Spawn {
                    group: g,
                    trigger: Trigger::Message,
                    forward: true,
                },
                Claim::Exhausted => RouteAction::Ignore,
            },
        }
    }
}

/// What a claim of `key` answers, and the registry after it, from the groups
/// by key and the next group number.
pub open spec fn claimed(m: Map<Seq<char>, u64>, next: u64, key: Seq<char>) -> (Claim, Map<Seq<char>, u64>) {
    if m.contains_key(key) {
        (Claim::Existing(m[key]), m)
    } else if next == u64::MAX {
        (Claim::Exhausted, m)
    } else {
        (Claim::Claimed(next), m.insert(key, next))
    }
}

/// A key never gets a second group: once a claim has given it a group, every
/// later claim of it, concurrent first contacts included, finds that group
/// and changes nothing.
pub proof fn lemma_claim_idempotent(m: Map<Seq<char>, u64>, next: u64, later: u64, key: Seq<char>)
    requires
        claimed(m, next, key).0 != Claim::Exhausted,
    ensures
        ({
            let (first, m1) = claimed(m, next, key);
            let (second, m2) = claimed(m1, later, key);
            &&& m2 == m1
            &&& second == Claim::Existing(m1[key])
            &&& first == Claim::Claimed(m1[key]) || first == Claim::Existing(m1[key])
        }),
{
}

} // verus!
