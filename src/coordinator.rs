use vstd::prelude::*;
use crate::action::{flag_named, parse_subscribe_flag};
use crate::types::{SubscribeFlag, SubscribeParam};

verus! {

/// Rate applied until a subscriber asks for another one.
pub const DEFAULT_RATE: u64 = 500;

/// Watchdog applied until a subscriber asks for another one.
pub const DEFAULT_WATCHDOG: u64 = 10000;

/// Throttling state of one signal or one message: thresholds in force, stamp
/// of the last publication (for a message, 1 once an upstream subscription
/// is installed and 0 before), and the listener count last reported.
#[derive(Clone, Copy, Debug, PartialEq, Eq, Structural)]
pub struct SubscriptionState {
    pub stamp: u64,
    pub rate: u64,
    pub watchdog: u64,
    pub listeners: i32,
    pub flag: SubscribeFlag,
}

impl SubscriptionState {
    /// State before any subscriber: default thresholds, new data only.
    pub open spec fn default_spec() -> SubscriptionState {
        SubscriptionState {
            stamp: 0,
            rate: DEFAULT_RATE,
            watchdog: DEFAULT_WATCHDOG,
            listeners: 0,
            flag: SubscribeFlag::NEW,
        }
    }

    /// State before any subscriber, with configured thresholds where given.
    pub open spec fn with_config_spec(rate: Option<u64>, watchdog: Option<u64>) -> SubscriptionState {
        SubscriptionState {
            stamp: 0,
            rate: match rate {
                Some(v) => v,
                None => DEFAULT_RATE,
            },
            watchdog: match watchdog {
                Some(v) => v,
                None => DEFAULT_WATCHDOG,
            },
            listeners: 0,
            flag: SubscribeFlag::NEW,
        }
    }

    /// Signal-level state once a subscriber asked for `rate` and `watchdog`:
    /// both tightened, one more listener (saturating).
    pub open spec fn signal_subscribed(&self, rate: u64, watchdog: u64) -> SubscriptionState {
        SubscriptionState {
            rate: if rate < self.rate {
                rate
            } else {
                self.rate
            },
            watchdog: if watchdog < self.watchdog {
                watchdog
            } else {
                self.watchdog
            },
            listeners: if self.listeners < i32::MAX {
                (self.listeners + 1) as i32
            } else {
                i32::MAX
            },
            ..*self
        }
    }

    pub fn new() -> (r: SubscriptionState)
        ensures
            r == Self::default_spec(),
    {
        SubscriptionState {
            stamp: 0,
            rate: DEFAULT_RATE,
            watchdog: DEFAULT_WATCHDOG,
            listeners: 0,
            flag: SubscribeFlag::NEW,
        }
    }

    /// State that a subscriber's thresholds start from when the message's
    /// configuration gives some.
    pub fn with_config(rate: Option<u64>, watchdog: Option<u64>) -> (r: SubscriptionState)
        ensures
            r == Self::with_config_spec(rate, watchdog),
    {
        SubscriptionState {
            stamp: 0,
            rate: match rate {
                Some(v) => v,
                None => DEFAULT_RATE,
            },
            watchdog: match watchdog {
                Some(v) => v,
                None => DEFAULT_WATCHDOG,
            },
            listeners: 0,
            flag: SubscribeFlag::NEW,
        }
    }

    /// Thresholds and flag that `req` asks for, a missing one taken from
    /// this state.
    pub open spec fn requested(&self, req: SubscribeRequest) -> (u64, u64, SubscribeFlag) {
        (
            match req.rate {
                Some(v) => v,
                None => self.rate,
            },
            match req.watchdog {
                Some(v) => v,
                None => self.watchdog,
            },
            match req.flag {
                Some(f) => f,
                None => self.flag,
            },
        )
    }

    /// Whether the upstream subscription must be (re)installed for these
    /// thresholds: none is installed yet, or one of them tightens, or the
    /// flag goes from new data only to all notifications.
    pub open spec fn needs_upstream(&self, rate: u64, watchdog: u64, flag: SubscribeFlag) -> bool {
        self.stamp == 0 || watchdog < self.watchdog || rate < self.rate || (self.flag
            == SubscribeFlag::NEW && flag == SubscribeFlag::ALL)
    }

    /// This state with the thresholds tightened to `rate` and `watchdog`,
    /// the flag promoted to `ALL` if asked, and the upstream mark set.
    pub open spec fn tightened(&self, rate: u64, watchdog: u64, flag: SubscribeFlag) -> SubscriptionState {
        SubscriptionState {
            stamp: 1,
            rate: if rate < self.rate {
                rate
            } else {
                self.rate
            },
            watchdog: if watchdog < self.watchdog {
                watchdog
            } else {
                self.watchdog
            },
            flag: if flag == SubscribeFlag::ALL {
                SubscribeFlag::ALL
            } else {
                self.flag
            },
            listeners: self.listeners,
        }
    }

    /// Outcome of a subscription to a message on this message-level state:
    /// the new state, and whether an upstream subscription is issued.
    pub open spec fn subscribed(&self, req: SubscribeRequest) -> (SubscriptionState, bool) {
        let (rate, watchdog, flag) = self.requested(req);
        if self.needs_upstream(rate, watchdog, flag) {
            (self.tightened(rate, watchdog, flag), true)
        } else {
            (*self, false)
        }
    }

    /// A subscriber joins a message whose message-level state this is.
    /// Returns the upstream subscription to issue, carrying the tightest
    /// thresholds known, or `None` when the one installed already serves.
    pub fn on_subscribe(&mut self, canid: u32, req: SubscribeRequest) -> (r: Option<SubscribeParam>)
        ensures
            *final(self) == old(self).subscribed(req).0,
            r is Some == old(self).subscribed(req).1,
            r matches Some(p) ==> p.canids@ == seq![canid] && p.rate == final(self).rate && p.watchdog
                == final(self).watchdog && p.flag == final(self).flag,
    {
        let rate = match req.rate {
            Some(v) => v,
            None => self.rate,
        };
        let watchdog = match req.watchdog {
            Some(v) => v,
            None => self.watchdog,
        };
        let flag = match req.flag {
            Some(f) => f,
            None => self.flag,
        };
        if self.stamp == 0 || watchdog < self.watchdog || rate < self.rate || (self.flag
            == SubscribeFlag::NEW && flag == SubscribeFlag::ALL) {
            if flag == SubscribeFlag::ALL {
                self.flag = SubscribeFlag::ALL;
            }
            if rate < self.rate {
                self.rate = rate;
            }
            if watchdog < self.watchdog {
                self.watchdog = watchdog;
            }
            self.stamp = 1;
            let mut canids: Vec<u32> = Vec::new();
            canids.push(canid);
            assert(canids@ =~= seq![canid]);
            Some(SubscribeParam::new(canids, self.watchdog, self.rate, self.flag))
        } else {
            None
        }
    }

    /// A subscriber joins the signal whose state this is, within a message
    /// whose message-level state is `msg`. Thresholds the request leaves out
    /// come from `msg`; the signal's own thresholds tighten to the request and
    /// its listener count grows by one (saturating); `msg` goes as in
    /// [`SubscriptionState::on_subscribe`].
    pub fn on_signal_subscribe(
        &mut self,
        msg: &mut SubscriptionState,
        canid: u32,
        req: SubscribeRequest,
    ) -> (r: Option<SubscribeParam>)
        ensures
            ({
                let (rate, watchdog, _) = old(msg).requested(req);
                *final(self) == old(self).signal_subscribed(rate, watchdog)
            }),
            *final(msg) == old(msg).subscribed(req).0,
            r is Some == old(msg).subscribed(req).1,
            r matches Some(p) ==> p.canids@ == seq![canid] && p.rate == final(msg).rate && p.watchdog
                == final(msg).watchdog && p.flag == final(msg).flag,
    {
        let rate = match req.rate {
            Some(v) => v,
            None => msg.rate,
        };
        let watchdog = match req.watchdog {
            Some(v) => v,
            None => msg.watchdog,
        };
        if rate < self.rate {
            self.rate = rate;
        }
        if watchdog < self.watchdog {
            self.watchdog = watchdog;
        }
        let r = msg.on_subscribe(canid, req);
        if self.listeners < i32::MAX {
            self.listeners = self.listeners + 1;
        }
        r
    }

    /// This state once the upstream subscription is dropped.
    pub open spec fn cleared(&self) -> SubscriptionState {
        SubscriptionState { stamp: 0, rate: 0, watchdog: 0, ..*self }
    }
}

/// A subscription never loosens the message-level state: rate and watchdog
/// only go down, and a flag of `ALL` stays `ALL`.
pub proof fn lemma_subscribe_only_tightens(s: SubscriptionState, req: SubscribeRequest)
    ensures
        s.subscribed(req).0.rate <= s.rate,
        s.subscribed(req).0.watchdog <= s.watchdog,
        s.flag == SubscribeFlag::ALL ==> s.subscribed(req).0.flag == SubscribeFlag::ALL,
        s.subscribed(req).0.listeners == s.listeners,
{
}

/// What a subscriber asks for; a missing field keeps the value in force.
#[derive(Clone, Copy, Debug, PartialEq, Eq, Structural)]
pub struct SubscribeRequest {
    pub rate: Option<u64>,
    pub watchdog: Option<u64>,
    pub flag: Option<SubscribeFlag>,
}

impl SubscribeRequest {
    /// The request that a query's fields make; a flag keyword that names no
    /// flag counts as absent.
    pub fn from_query(rate: Option<u64>, watchdog: Option<u64>, flag: Option<&str>) -> (r: SubscribeRequest)
        ensures
            r.rate == rate,
            r.watchdog == watchdog,
            r.flag == match flag {
                Some(s) => flag_named(s@),
                None => None,
            },
    {
        let flag = match flag {
            Some(s) => parse_subscribe_flag(s),
            None => None,
        };
        SubscribeRequest { rate, watchdog, flag }
    }
}

} // verus!
