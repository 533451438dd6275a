use vstd::prelude::*;

use crate::ratelimit::Trigger;

verus! {

/// Seconds between two heartbeats of a monitor group.
pub const HEARTBEAT_SECS: u64 = 60;

/// Heartbeats without activity after which a group ends (a day).
pub const IDLE_TICKS: u64 = 1440;

/// The monitors a group runs.
#[derive(Clone, Copy, Debug, PartialEq, Eq, Structural)]
pub enum Child {
    RateLimit,
    LinkSpam,
    Challenge,
}

/// The age of a group in heartbeats, the age at its last activity, the idle
/// limit, and whether it has stopped.
#[derive(Clone, Copy, Debug, PartialEq, Eq, Structural)]
pub struct GroupClock {
    pub age: u64,
    pub last_activity_age: u64,
    pub idle_limit: u64,
    pub stopped: bool,
}

/// One more heartbeat, held at the largest `u64`.
pub open spec fn next_age(age: u64) -> u64 {
    if age < u64::MAX {
        (age + 1) as u64
    } else {
        age
    }
}

/// What a heartbeat makes of a clock: it ages, and stops once the time since
/// the last activity reaches the idle limit.
pub open spec fn heartbeat(c: GroupClock) -> GroupClock {
    if c.stopped {
        c
    } else {
        let age = next_age(c.age);
        GroupClock { age, stopped: age - c.last_activity_age >= c.idle_limit, ..c }
    }
}

/// `n` heartbeats in a row, with no activity between them.
pub open spec fn heartbeats(c: GroupClock, n: nat) -> GroupClock
    decreases n,
{
    if n == 0 {
        c
    } else {
        heartbeats(heartbeat(c), (n - 1) as nat)
    }
}

/// What an activity of the user makes of a running clock.
pub open spec fn activity(c: GroupClock) -> GroupClock {
    if c.stopped {
        c
    } else {
        GroupClock { last_activity_age: c.age, ..c }
    }
}

/// The monitors started for a trigger, in order: the rate limiter and the
/// link-spam detector always, the challenge after a join.
pub open spec fn children_for(trigger: Trigger) -> Seq<Child> {
    if trigger == Trigger::Join {
        seq![Child::RateLimit, Child::LinkSpam, Child::Challenge]
    } else {
        seq![Child::RateLimit, Child::LinkSpam]
    }
}

/// The monitors of one (user, room) pair and their shared idle clock.
#[derive(Clone, Debug)]
pub struct MonitorGroup {
    pub trigger: Trigger,
    pub clock: GroupClock,
    /// The monitors still running, in the order they were started.
    pub children: Vec<Child>,
}

impl GroupClock {
    pub open spec fn wf(&self) -> bool {
        self.last_activity_age <= self.age
    }
}

impl MonitorGroup {
    pub open spec fn wf(&self) -> bool {
        &&& self.clock.wf()
        &&& self.clock.stopped ==> self.children.len() == 0
    }

    /// A group started by `trigger` that ends after `idle_limit` idle
    /// heartbeats.
    pub fn new(trigger: Trigger, idle_limit: u64) -> (r: MonitorGroup)
        ensures
            r.wf(),
            r.trigger == trigger,
            r.clock == (GroupClock { age: 0, last_activity_age: 0, idle_limit, stopped: false }),
            r.children@ == children_for(trigger),
    {
        let mut children: Vec<Child> = Vec::new();
        children.push(Child::RateLimit);
        children.push(Child::LinkSpam);
        match trigger {
            Trigger::Join => {
                children.push(Child::Challenge);
            },
            Trigger::Message => {},
        }
        assert(children@ =~= children_for(trigger));
        MonitorGroup {
            trigger,
            clock: GroupClock { age: 0, last_activity_age: 0, idle_limit, stopped: false },
            children,
        }
    }

    /// Stops the group: returns every monitor still running, each to be
    /// stopped whatever its own state.
    pub fn stop(&mut self) -> (r: Vec<Child>)
        requires
            old(self).clock.wf(),
        ensures
            final(self).wf(),
            final(self).clock == (GroupClock { stopped: true, ..old(self).clock }),
            final(self).trigger == old(self).trigger,
            final(self).children@.len() == 0,
            r@ == old(self).children@,
    {
        self.clock.stopped = true;
        let mut r: Vec<Child> = Vec::new();
        std::mem::swap(&mut r, &mut self.children);
        r
    }

    /// A heartbeat. When the group has been idle for its limit it stops, and
    /// the monitors to stop are returned; otherwise none are.
    pub fn on_heartbeat(&mut self) -> (r: Vec<Child>)
        requires
            old(self).wf(),
        ensures
            final(self).wf(),
            final(self).clock == heartbeat(old(self).clock),
            final(self).trigger == old(self).trigger,
            final(self).clock.stopped && !old(self).clock.stopped ==> {
                &&& r@ == old(self).children@
                &&& final(self).children@.len() == 0
            },
            !(final(self).clock.stopped && !old(self).clock.stopped) ==> {
                &&& r@.len() == 0
                &&& final(self).children@ == old(self).children@
            },
    {
        if self.clock.stopped {
            return Vec::new();
        }
        if self.clock.age < u64::MAX {
            self.clock.age = self.clock.age + 1;
        }
        if self.clock.age - self.clock.last_activity_age >= self.clock.idle_limit {
            self.stop()
        } else {
            Vec::new()
        }
    }

    /// A message or reaction of the user: returns the monitors to hand it to
    /// (all that run, in order) and restarts the idle clock.
    pub fn on_activity(&mut self) -> (r: Vec<Child>)
        requires
            old(self).wf(),
        ensures
            final(self).wf(),
            final(self).clock == activity(old(self).clock),
            final(self).trigger == old(self).trigger,
            final(self).children@ == old(self).children@,
            r@ == old(self).children@,
    {
        if !self.clock.stopped {
            self.clock.last_activity_age = self.clock.age;
        }
        self.children.clone()
    }

    /// The monitor `child` has ended: it gets no more events.
    pub fn on_child_ended(&mut self, child: Child)
        requires
            old(self).wf(),
        ensures
            final(self).wf(),
            final(self).clock == old(self).clock,
            final(self).trigger == old(self).trigger,
            final(self).children@ == old(self).children@.filter(|c: Child| c != child),
    {
        let mut kept: Vec<Child> = Vec::new();
        let mut i: usize = 0;
        while i < self.children.len()
            invariant
                i <= self.children.len(),
                kept@ == self.children@.subrange(0, i as int).filter(|c: Child| c != child),
            decreases self.children.len() - i,
        {
            let c = self.children[i];
            proof {
                let s = self.children@.subrange(0, i + 1);
                assert(s.drop_last() == self.children@.subrange(0, i as int));
                reveal(Seq::filter);
            }
            if c != child {
                kept.push(c);
            }
            i = i + 1;
        }
        assert(self.children@.subrange(0, i as int) == self.children@);
        self.children = kept;
    }
}

/// A running group stops after exactly as many idle heartbeats as its limit
/// leaves it: it keeps running while the time since the last activity stays
/// under the limit, and has stopped once it reaches it.
pub proof fn lemma_idle_eviction(c: GroupClock, n: nat)
    requires
        c.wf(),
        !c.stopped,
        c.age - c.last_activity_age < c.idle_limit,
        c.age + n <= u64::MAX,
    ensures
        heartbeats(c, n).stopped <==> c.age - c.last_activity_age + n >= c.idle_limit,
        heartbeats(c, n).last_activity_age == c.last_activity_age,
    decreases n,
{
    if n > 0 {
        let h = heartbeat(c);
        if h.stopped {
            lemma_stopped_stays(h, (n - 1) as nat);
        } else {
            lemma_idle_eviction(h, (n - 1) as nat);
        }
    }
}

/// A stopped clock is left as it is by heartbeats.
proof fn lemma_stopped_stays(c: GroupClock, n: nat)
    requires
        c.stopped,
    ensures
        heartbeats(c, n) == c,
    decreases n,
{
    if n > 0 {
        lemma_stopped_stays(heartbeat(c), (n - 1) as nat);
    }
}

/// An activity restarts the idle clock: the group then survives every run of
/// fewer idle heartbeats than its limit.
pub proof fn lemma_activity_restarts_clock(c: GroupClock, n: nat)
    requires
        c.wf(),
        !c.stopped,
        n < c.idle_limit,
        c.age + n <= u64::MAX,
    ensures
        !heartbeats(activity(c), n).stopped,
{
    lemma_idle_eviction(activity(c), n);
}

} // verus!
