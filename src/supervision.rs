use vstd::prelude::*;

verus! {

/// The long-lived services that the supervisor keeps running.
#[derive(Clone, Copy, Debug, PartialEq, Eq, Structural)]
pub enum Singleton {
    Router,
    Actuator,
    ConfigProvider,
}

/// The name under which each service is registered.
pub open spec fn name_of(s: Singleton) -> Seq<char> {
    match s {
        Singleton::Router => "router"@,
        Singleton::Actuator => "moderator"@,
        Singleton::ConfigProvider => "config_provider"@,
    }
}

impl Singleton {
    /// The registered name of the service.
    pub fn name(&self) -> (r: String)
        ensures
            r@ == name_of(*self),
    {
        match self {
            Singleton::Router => String::from_str("router"),
            Singleton::Actuator => String::from_str("moderator"),
            Singleton::ConfigProvider => String::from_str("config_provider"),
        }
    }

    /// The service registered under `name`, if any.
    pub fn named(name: &String) -> (r: Option<Singleton>)
        ensures
            r matches Some(s) ==> name_of(s) == name@,
            r is None ==> forall|s: Singleton| name_of(s) != name@,
    {
        let router = String::from_str("router");
        let actuator = String::from_str("moderator");
        let config = String::from_str("config_provider");
        if *name == router {
            Some(Singleton::Router)
        } else if *name == actuator {
            Some(Singleton::Actuator)
        } else if *name == config {
            Some(Singleton::ConfigProvider)
        } else {
            proof {
                assert forall|s: Singleton| name_of(s) != name@ by {
                    match s {
                        Singleton::Router => {},
                        Singleton::Actuator => {},
                        Singleton::ConfigProvider => {},
                    }
                }
            }
            None
        }
    }
}

/// `n + 1`, held at the largest `u64`.
pub open spec fn bumped(n: u64) -> u64 {
    if n < u64::MAX {
        (n + 1) as u64
    } else {
        n
    }
}

/// How often each service has been restarted. A failed service is always
/// restarted, with the arguments it was first built with, without limit.
#[derive(Clone, Copy, Debug, PartialEq, Eq, Structural)]
pub struct RestartPolicy {
    pub router_restarts: u64,
    pub actuator_restarts: u64,
    pub config_provider_restarts: u64,
}

impl RestartPolicy {
    pub open spec fn restarts_of(&self, s: Singleton) -> u64 {
        match s {
            Singleton::Router => self.router_restarts,
            Singleton::Actuator => self.actuator_restarts,
            Singleton::ConfigProvider => self.config_provider_restarts,
        }
    }

    pub fn new() -> (r: RestartPolicy)
        ensures
            forall|s: Singleton| r.restarts_of(s) == 0,
    {
        RestartPolicy { router_restarts: 0, actuator_restarts: 0, config_provider_restarts: 0 }
    }

    /// How often `s` has been restarted.
    pub fn restarts(&self, s: Singleton) -> (r: u64)
        ensures
            r == self.restarts_of(s),
    {
        match s {
            Singleton::Router => self.router_restarts,
            Singleton::Actuator => self.actuator_restarts,
            Singleton::ConfigProvider => self.config_provider_restarts,
        }
    }

    /// A supervised actor named `name` has failed: the service of that name
    /// is to be restarted and its count goes up; any other actor is left to
    /// itself.
    pub fn on_failure(&mut self, name: &String) -> (r: Option<Singleton>)
        ensures
            r matches Some(s) ==> name_of(s) == name@,
            r is None ==> forall|s: Singleton| name_of(s) != name@,
            forall|s: Singleton| #[trigger]
                final(self).restarts_of(s) == if r == Some(s) {
                    bumped(old(self).restarts_of(s))
                } else {
                    old(self).restarts_of(s)
                },
    {
        let r = Singleton::named(name);
        match r {
            Some(Singleton::Router) => {
                self.router_restarts = self.router_restarts.saturating_add(1);
            },
            Some(Singleton::Actuator) => {
                self.actuator_restarts = self.actuator_restarts.saturating_add(1);
            },
            Some(Singleton::ConfigProvider) => {
                self.config_provider_restarts = self.config_provider_restarts.saturating_add(1);
            },
            None => {},
        }
        r
    }
}

} // verus!
