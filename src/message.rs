use vstd::prelude::*;
use crate::coordinator::{SubscribeRequest, SubscriptionState};
use crate::signal::{Signal, signal_updated};
use crate::types::{
    BcmOpCode, CanBmcData, CanFrame, FrameView, DataBcmMsg, DataBmcSig, DataStatus, SubscribeFlag,
    SubscribeParam, UnSubscribeParam,
};

verus! {

/// Largest number of signals in one message.
pub const MAX_SIGNALS: usize = 512;

/// Listener count that a signal adds to its message's tally.
pub open spec fn contribution(s: Signal) -> int {
    match s.listener {
        Some(info) => info.listeners as int,
        None => 0,
    }
}

/// Sum of the contributions of `sigs`.
pub open spec fn tally(sigs: Seq<Signal>) -> int
    decreases sigs.len(),
{
    if sigs.len() == 0 {
        0
    } else {
        tally(sigs.drop_last()) + contribution(sigs.last())
    }
}

proof fn lemma_tally_bounds(sigs: Seq<Signal>)
    ensures
        -0x8000_0000 * sigs.len() <= tally(sigs) <= 0x8000_0000 * sigs.len(),
    decreases sigs.len(),
{
    if sigs.len() > 0 {
        lemma_tally_bounds(sigs.drop_last());
    }
}

proof fn lemma_tally_prefix(sigs: Seq<Signal>, i: int)
    requires
        0 <= i < sigs.len(),
    ensures
        tally(sigs.subrange(0, i + 1)) == tally(sigs.subrange(0, i)) + contribution(sigs[i]),
{
    assert(sigs.subrange(0, i + 1).drop_last() =~= sigs.subrange(0, i));
}

/// Positions of the signals of `sigs` that a message publication carries:
/// all of them for `ALL`, those just updated for `NEW`.
pub open spec fn selected(sigs: Seq<Signal>, flag: SubscribeFlag) -> Seq<usize>
    decreases sigs.len(),
{
    if sigs.len() == 0 {
        Seq::empty()
    } else {
        let rest = selected(sigs.drop_last(), flag);
        if flag == SubscribeFlag::ALL || sigs.last().status == DataStatus::Updated {
            rest.push((sigs.len() - 1) as usize)
        } else {
            rest
        }
    }
}

/// Nobody listens any more once a publication of `m` reports `returned`
/// listeners: the report and the message's tally add up to less than one.
pub open spec fn no_listener_left(m: Message, returned: i32) -> bool {
    returned + m.listeners < 1
}

/// `after` is the message `before` once `frame` is taken in.
pub open spec fn message_updated(before: Message, after: Message, frame: FrameView) -> bool {
    &&& after.wf()
    &&& after.id == before.id
    &&& after.name == before.name
    &&& after.listener == before.listener
    &&& after.stamp == frame.stamp
    &&& after.status == frame.opcode
    &&& after.signals@.len() == before.signals@.len()
    &&& forall|i: int|
        0 <= i < before.signals@.len() ==> signal_updated(
            #[trigger] before.signals@[i],
            after.signals@[i],
            frame,
            contribution(before.signals@[i]) as i32,
        )
    &&& after.listeners == tally(after.signals@)
    &&& tally(after.signals@) == tally(before.signals@)
}

/// One message of the bus: its identifier and name, its signals in a fixed
/// order, the opcode and stamp of the last frame, the listener tally of the
/// last update, and the throttling state of its own listener, if attached.
#[derive(Clone, Debug)]
pub struct Message {
    pub id: u32,
    pub name: String,
    pub signals: Vec<Signal>,
    pub status: BcmOpCode,
    pub stamp: u64,
    pub listeners: i64,
    pub listener: Option<SubscriptionState>,
}

impl Message {
    pub open spec fn wf(&self) -> bool {
        &&& self.signals@.len() <= MAX_SIGNALS
        &&& forall|i: int| 0 <= i < self.signals@.len() ==> (#[trigger] self.signals@[i]).wf()
    }

    /// A message that has seen no frame yet.
    pub fn new(id: u32, name: String, signals: Vec<Signal>) -> (r: Message)
        requires
            signals@.len() <= MAX_SIGNALS,
            forall|i: int| 0 <= i < signals@.len() ==> (#[trigger] signals@[i]).wf(),
        ensures
            r.wf(),
            r.id == id,
            r.name == name,
            r.signals@ == signals@,
            r.status == BcmOpCode::Unknown,
            r.stamp == 0,
            r.listeners == 0,
            r.listener is None,
    {
        Message {
            id,
            name,
            signals,
            status: BcmOpCode::Unknown,
            stamp: 0,
            listeners: 0,
            listener: None,
        }
    }

    pub fn get_id(&self) -> (r: u32)
        ensures
            r == self.id,
    {
        self.id
    }

    pub fn get_name(&self) -> (r: &String)
        ensures
            r == self.name,
    {
        &self.name
    }

    pub fn get_status(&self) -> (r: BcmOpCode)
        ensures
            r == self.status,
    {
        self.status
    }

    pub fn get_stamp(&self) -> (r: u64)
        ensures
            r == self.stamp,
    {
        self.stamp
    }

    /// Listener tally of the most recent update.
    pub fn get_listeners(&self) -> (r: i64)
        ensures
            r == self.listeners,
    {
        self.listeners
    }

    pub fn get_signals(&self) -> (r: &Vec<Signal>)
        ensures
            r@ == self.signals@,
    {
        &self.signals
    }

    /// Attaches the message-level listener, replacing any earlier one.
    pub fn set_callback(&mut self, listener: SubscriptionState)
        ensures
            *final(self) == (Message { listener: Some(listener), ..*old(self) }),
    {
        self.listener = Some(listener);
    }

    /// Takes in a frame of this message: keeps its stamp and opcode, hands it
    /// to every signal in turn, and sets the tally to the sum of the counts
    /// they return.
    pub fn update(&mut self, frame: &CanFrame)
        requires
            old(self).wf(),
        ensures
            message_updated(*old(self), *final(self), frame@),
    {
        self.stamp = frame.stamp;
        self.status = frame.opcode;
        self.listeners = 0;
        let n = self.signals.len();
        let mut i: usize = 0;
        while i < n
            invariant
                n == self.signals@.len(),
                n == old(self).signals@.len(),
                n <= MAX_SIGNALS,
                i <= n,
                self.id == old(self).id,
                self.name == old(self).name,
                self.listener == old(self).listener,
                self.stamp == frame.stamp,
                self.status == frame.opcode,
                forall|k: int| 0 <= k < n ==> (#[trigger] self.signals@[k]).wf(),
                forall|k: int|
                    0 <= k < i ==> signal_updated(
                        #[trigger] old(self).signals@[k],
                        self.signals@[k],
                        frame@,
                        contribution(old(self).signals@[k]) as i32,
                    ),
                forall|k: int|
                    0 <= k < i ==> contribution(#[trigger] self.signals@[k]) == contribution(
                        old(self).signals@[k],
                    ),
                forall|k: int| i <= k < n ==> #[trigger] self.signals@[k] == old(self).signals@[k],
                self.listeners == tally(self.signals@.subrange(0, i as int)),
                tally(self.signals@.subrange(0, i as int)) == tally(
                    old(self).signals@.subrange(0, i as int),
                ),
            decreases n - i,
        {
            proof {
                lemma_tally_bounds(self.signals@.subrange(0, i as int));
            }
            let ghost before = self.signals@;
            let c = self.signals[i].update(frame);
            proof {
                assert(self.signals@ == before.update(i as int, self.signals@[i as int]));
                assert(self.signals@.subrange(0, i as int) =~= before.subrange(0, i as int));
                lemma_tally_prefix(self.signals@, i as int);
                lemma_tally_prefix(old(self).signals@, i as int);
            }
            self.listeners = self.listeners + c as i64;
            i += 1;
        }
        proof {
            assert(self.signals@.subrange(0, n as int) =~= self.signals@);
            assert(old(self).signals@.subrange(0, n as int) =~= old(self).signals@);
        }
    }

    /// Sets the tally to the sum of the signals' listener counts.
    fn recount(&mut self)
        requires
            old(self).wf(),
        ensures
            *final(self) == (Message { listeners: tally(old(self).signals@) as i64, ..*old(self) }),
            final(self).listeners == tally(final(self).signals@),
    {
        let n = self.signals.len();
        let mut sum: i64 = 0;
        let mut i: usize = 0;
        while i < n
            invariant
                n == self.signals@.len(),
                n <= MAX_SIGNALS,
                i <= n,
                sum == tally(self.signals@.subrange(0, i as int)),
            decreases n - i,
        {
            proof {
                lemma_tally_bounds(self.signals@.subrange(0, i as int));
                lemma_tally_prefix(self.signals@, i as int);
            }
            let c: i64 = match self.signals[i].listener {
                Some(info) => info.listeners as i64,
                None => 0,
            };
            sum = sum + c;
            i += 1;
        }
        proof {
            assert(self.signals@.subrange(0, n as int) =~= self.signals@);
            lemma_tally_bounds(self.signals@);
        }
        self.listeners = sum;
    }

    /// Records the listener count that the publication of signal `j`
    /// reported, and brings the tally up to date.
    pub fn record_signal_publication(&mut self, j: usize, listeners: i32)
        requires
            old(self).wf(),
            j < old(self).signals@.len(),
        ensures
            final(self).wf(),
            final(self).id == old(self).id,
            final(self).name == old(self).name,
            final(self).status == old(self).status,
            final(self).stamp == old(self).stamp,
            final(self).listener == old(self).listener,
            final(self).signals@.len() == old(self).signals@.len(),
            forall|k: int|
                0 <= k < old(self).signals@.len() && k != j ==> #[trigger] final(self).signals@[k]
                    == old(self).signals@[k],
            ({
                let (a, b) = (old(self).signals@[j as int], final(self).signals@[j as int]);
                &&& b.def == a.def
                &&& b.value == a.value
                &&& b.status == a.status
                &&& b.stamp == a.stamp
                &&& !b.publish_due
                &&& b.listener == match a.listener {
                    Some(info) => Some(SubscriptionState { listeners, ..info }),
                    None => None,
                }
            }),
            final(self).listeners == tally(final(self).signals@),
    {
        self.signals[j].record_publication(listeners);
        self.recount();
    }

    /// Returns the message and all its signals to their state before any
    /// frame.
    pub fn reset(&mut self)
        requires
            old(self).wf(),
        ensures
            final(self).wf(),
            final(self).id == old(self).id,
            final(self).name == old(self).name,
            final(self).listeners == old(self).listeners,
            final(self).listener == old(self).listener,
            final(self).status == BcmOpCode::Unknown,
            final(self).stamp == 0,
            final(self).signals@.len() == old(self).signals@.len(),
            forall|i: int|
                0 <= i < old(self).signals@.len() ==> #[trigger] final(self).signals@[i] == old(self).signals@[i].reset_state(),
    {
        self.status = BcmOpCode::Unknown;
        self.stamp = 0;
        let n = self.signals.len();
        let mut i: usize = 0;
        while i < n
            invariant
                n == self.signals@.len(),
                n == old(self).signals@.len(),
                n <= MAX_SIGNALS,
                i <= n,
                self.id == old(self).id,
                self.name == old(self).name,
                self.listeners == old(self).listeners,
                self.listener == old(self).listener,
                self.status == BcmOpCode::Unknown,
                self.stamp == 0,
                forall|k: int| 0 <= k < i ==> #[trigger] self.signals@[k] == old(self).signals@[k].reset_state(),
                forall|k: int| i <= k < n ==> #[trigger] self.signals@[k] == old(self).signals@[k],
                forall|k: int| 0 <= k < n ==> (#[trigger] old(self).signals@[k]).wf(),
            decreases n - i,
        {
            self.signals[i].reset();
            i += 1;
        }
    }
}

/// The identifiers of `ms` strictly increase.
pub open spec fn ids_increasing(ms: Seq<Message>) -> bool {
    forall|i: int, j: int| 0 <= i < j < ms.len() ==> (#[trigger] ms[i]).id < (#[trigger] ms[j]).id
}

fn check_ids_increasing(messages: &Vec<Message>) -> (r: bool)
    ensures
        r == ids_increasing(messages@),
{
    let n = messages.len();
    if n == 0 {
        return true;
    }
    let mut i: usize = 1;
    while i < n
        invariant
            n == messages@.len(),
            1 <= i <= n,
            forall|a: int, b: int|
                0 <= a < b < i ==> (#[trigger] messages@[a]).id < (#[trigger] messages@[b]).id,
        decreases n - i,
    {
        if messages[i - 1].id >= messages[i].id {
            proof {
                let (a, b) = ((i - 1) as int, i as int);
                assert(messages@[a].id >= messages@[b].id);
            }
            return false;
        }
        proof {
            assert forall|a: int, b: int|
                0 <= a < b < i + 1 implies (#[trigger] messages@[a]).id
                < (#[trigger] messages@[b]).id by {
                if b == i && a < i - 1 {
                    assert(messages@[a].id < messages@[i - 1].id);
                }
            }
        }
        i += 1;
    }
    true
}

impl Message {
    /// Attaches the listeners of the message and of each of its signals: the
    /// message's thresholds come from its configuration where given, every
    /// signal starts from the defaults.
    pub fn register(&mut self, rate: Option<u64>, watchdog: Option<u64>)
        requires
            old(self).wf(),
        ensures
            final(self).wf(),
            final(self).id == old(self).id,
            final(self).name == old(self).name,
            final(self).status == old(self).status,
            final(self).stamp == old(self).stamp,
            final(self).listeners == old(self).listeners,
            final(self).listener == Some(SubscriptionState::with_config_spec(rate, watchdog)),
            final(self).signals@.len() == old(self).signals@.len(),
            forall|i: int|
                0 <= i < old(self).signals@.len() ==> #[trigger] final(self).signals@[i] == (Signal {
                    listener: Some(SubscriptionState::default_spec()),
                    ..old(self).signals@[i]
                }),
    {
        self.listener = Some(SubscriptionState::with_config(rate, watchdog));
        let n = self.signals.len();
        let mut i: usize = 0;
        while i < n
            invariant
                n == self.signals@.len(),
                n == old(self).signals@.len(),
                n <= MAX_SIGNALS,
                i <= n,
                self.id == old(self).id,
                self.name == old(self).name,
                self.status == old(self).status,
                self.stamp == old(self).stamp,
                self.listeners == old(self).listeners,
                self.listener == Some(SubscriptionState::with_config_spec(rate, watchdog)),
                forall|k: int|
                    0 <= k < i ==> #[trigger] self.signals@[k] == (Signal {
                        listener: Some(SubscriptionState::default_spec()),
                        ..old(self).signals@[k]
                    }),
                forall|k: int| i <= k < n ==> #[trigger] self.signals@[k] == old(self).signals@[k],
                forall|k: int| 0 <= k < n ==> (#[trigger] old(self).signals@[k]).wf(),
            decreases n - i,
        {
            self.signals[i].set_callback(SubscriptionState::new());
            i += 1;
        }
    }

    /// A subscriber joins this message (see
    /// [`SubscriptionState::on_subscribe`]); a message without listener
    /// takes the default one first.
    pub fn subscribe(&mut self, req: SubscribeRequest) -> (r: Option<SubscribeParam>)
        ensures
            ({
                let cur = match old(self).listener {
                    Some(info) => info,
                    None => SubscriptionState::default_spec(),
                };
                &&& *final(self) == (Message { listener: Some(cur.subscribed(req).0), ..*old(self) })
                &&& r is Some == cur.subscribed(req).1
                &&& r matches Some(p) ==> p.canids@ == seq![old(self).id] && p.rate == cur.subscribed(
                    req,
                ).0.rate && p.watchdog == cur.subscribed(req).0.watchdog && p.flag == cur.subscribed(
                    req,
                ).0.flag
            }),
    {
        let mut info = match self.listener {
            Some(info) => info,
            None => SubscriptionState::new(),
        };
        let r = info.on_subscribe(self.id, req);
        self.listener = Some(info);
        r
    }

    /// A subscriber joins signal `j` of this message (see
    /// [`SubscriptionState::on_signal_subscribe`]); a missing listener is the
    /// default one.
    pub fn subscribe_signal(&mut self, j: usize, req: SubscribeRequest) -> (r: Option<SubscribeParam>)
        requires
            old(self).wf(),
            j < old(self).signals@.len(),
        ensures
            final(self).wf(),
            ({
                let cur = match old(self).listener {
                    Some(info) => info,
                    None => SubscriptionState::default_spec(),
                };
                let sig = match old(self).signals@[j as int].listener {
                    Some(info) => info,
                    None => SubscriptionState::default_spec(),
                };
                let (rate, watchdog, _) = cur.requested(req);
                &&& final(self).listener == Some(cur.subscribed(req).0)
                &&& final(self).signals@.len() == old(self).signals@.len()
                &&& final(self).signals@[j as int] == (Signal {
                    listener: Some(sig.signal_subscribed(rate, watchdog)),
                    ..old(self).signals@[j as int]
                })
                &&& forall|k: int|
                    0 <= k < old(self).signals@.len() && k != j ==> #[trigger] final(self).signals@[k]
                        == old(self).signals@[k]
                &&& final(self).id == old(self).id
                &&& final(self).name == old(self).name
                &&& final(self).status == old(self).status
                &&& final(self).stamp == old(self).stamp
                &&& final(self).listeners == old(self).listeners
                &&& r is Some == cur.subscribed(req).1
                &&& r matches Some(p) ==> p.canids@ == seq![old(self).id] && p.rate == cur.subscribed(
                    req,
                ).0.rate && p.watchdog == cur.subscribed(req).0.watchdog && p.flag == cur.subscribed(
                    req,
                ).0.flag
            }),
    {
        let mut info = match self.listener {
            Some(info) => info,
            None => SubscriptionState::new(),
        };
        let mut sig = match self.signals[j].listener {
            Some(info) => info,
            None => SubscriptionState::new(),
        };
        let r = sig.on_signal_subscribe(&mut info, self.id, req);
        self.listener = Some(info);
        self.signals[j].set_callback(sig);
        r
    }

    /// Positions of the signals that a publication with `flag` carries.
    pub fn select_signals(&self, flag: SubscribeFlag) -> (r: Vec<usize>)
        ensures
            r@ == selected(self.signals@, flag),
    {
        let n = self.signals.len();
        let mut out: Vec<usize> = Vec::new();
        let mut i: usize = 0;
        while i < n
            invariant
                n == self.signals@.len(),
                i <= n,
                out@ == selected(self.signals@.subrange(0, i as int), flag),
            decreases n - i,
        {
            proof {
                assert(self.signals@.subrange(0, i as int + 1).drop_last() =~= self.signals@.subrange(
                    0,
                    i as int,
                ));
            }
            if flag == SubscribeFlag::ALL || self.signals[i].status == DataStatus::Updated {
                out.push(i);
            }
            i += 1;
        }
        assert(self.signals@.subrange(0, n as int) =~= self.signals@);
        out
    }

    /// Snapshot of the message for publication.
    pub fn snapshot(&self) -> (r: DataBcmMsg)
        ensures
            r.canid == self.id,
            r.stamp == self.stamp,
            r.status == self.status,
    {
        DataBcmMsg { canid: self.id, stamp: self.stamp, status: self.status }
    }

    /// After a publication of this message reported `returned` listeners:
    /// when nobody listens any more, returns the upstream unsubscription for
    /// this message and clears the message-level thresholds, so that the next
    /// subscriber sets them afresh; otherwise changes nothing.
    pub fn after_publish(&mut self, returned: i32) -> (r: Option<UnSubscribeParam>)
        ensures
            r is Some == no_listener_left(*old(self), returned),
            r matches Some(p) ==> p.canids@ == seq![old(self).id],
            *final(self) == if no_listener_left(*old(self), returned) {
                Message {
                    listener: match old(self).listener {
                        Some(info) => Some(info.cleared()),
                        None => None,
                    },
                    ..*old(self)
                }
            } else {
                *old(self)
            },
    {
        if (returned as i128) + (self.listeners as i128) < 1 {
            if let Some(info) = self.listener {
                self.listener = Some(SubscriptionState { stamp: 0, rate: 0, watchdog: 0, ..info });
            }
            let mut canids: Vec<u32> = Vec::new();
            canids.push(self.id);
            assert(canids@ =~= seq![self.id]);
            Some(UnSubscribeParam::new(canids))
        } else {
            None
        }
    }
}

impl Signal {
    /// Snapshot of the signal for publication.
    pub fn snapshot(&self) -> (r: DataBmcSig)
        ensures
            r.name@ == self.def.name@,
            r.stamp == self.stamp,
            r.status == self.status,
            r.value == self.value,
    {
        DataBmcSig {
            name: self.def.name.clone(),
            stamp: self.stamp,
            status: self.status,
            value: self.value,
        }
    }
}

/// Listener teardown: when a message whose signals report no listener takes
/// in a frame, and its publication then reports no listener either, exactly
/// one upstream unsubscription, for this message alone, is issued, and the
/// message-level stamp, rate and watchdog all drop to zero.
pub proof fn lemma_listener_teardown(before: Message, frame: FrameView, after: Message)
    requires
        message_updated(before, after, frame),
        tally(before.signals@) == 0,
    ensures
        no_listener_left(after, 0),
        after.listener matches Some(info) ==> info.cleared().stamp == 0 && info.cleared().rate == 0
            && info.cleared().watchdog == 0,
{
}

/// Why the pool refused a request.
#[derive(Clone, Copy, Debug, PartialEq, Eq, Structural)]
pub enum PoolError {
    /// No message has the requested identifier.
    NotFound,
    /// Identifiers given to the pool are not strictly increasing.
    UnsortedIds,
}

/// The fixed set of messages of one bus, kept in increasing order of
/// identifier.
#[derive(Clone, Debug)]
pub struct MessagePool {
    pub messages: Vec<Message>,
}

impl MessagePool {
    pub open spec fn wf(&self) -> bool {
        &&& forall|i: int| 0 <= i < self.messages@.len() ==> (#[trigger] self.messages@[i]).wf()
        &&& ids_increasing(self.messages@)
    }

    /// Builds the pool; the identifiers must be strictly increasing.
    pub fn new(messages: Vec<Message>) -> (r: Result<MessagePool, PoolError>)
        requires
            forall|i: int| 0 <= i < messages@.len() ==> (#[trigger] messages@[i]).wf(),
        ensures
            match r {
                Ok(pool) => pool.wf() && pool.messages@ == messages@,
                Err(e) => e == PoolError::UnsortedIds && !ids_increasing(messages@),
            },
    {
        if check_ids_increasing(&messages) {
            Ok(MessagePool { messages })
        } else {
            Err(PoolError::UnsortedIds)
        }
    }

    /// Identifiers of the messages, in the pool's order.
    pub fn get_ids(&self) -> (r: Vec<u32>)
        ensures
            r@.len() == self.messages@.len(),
            forall|i: int| 0 <= i < r@.len() ==> r@[i] == #[trigger] self.messages@[i].id,
    {
        let n = self.messages.len();
        let mut ids: Vec<u32> = Vec::new();
        let mut i: usize = 0;
        while i < n
            invariant
                n == self.messages@.len(),
                i <= n,
                ids@.len() == i,
                forall|k: int| 0 <= k < i ==> ids@[k] == #[trigger] self.messages@[k].id,
            decreases n - i,
        {
            ids.push(self.messages[i].id);
            i += 1;
        }
        ids
    }

    pub fn get_messages(&self) -> (r: &Vec<Message>)
        ensures
            r@ == self.messages@,
    {
        &self.messages
    }

    /// Position of the message with identifier `canid`, found by binary
    /// search.
    pub fn find(&self, canid: u32) -> (r: Result<usize, PoolError>)
        requires
            self.wf(),
        ensures
            match r {
                Ok(i) => i < self.messages@.len() && self.messages@[i as int].id == canid,
                Err(e) => e == PoolError::NotFound && forall|i: int|
                    0 <= i < self.messages@.len() ==> (#[trigger] self.messages@[i]).id != canid,
            },
    {
        let mut lo: usize = 0;
        let mut hi: usize = self.messages.len();
        while lo < hi
            invariant
                self.wf(),
                lo <= hi <= self.messages@.len(),
                forall|i: int| 0 <= i < lo ==> (#[trigger] self.messages@[i]).id < canid,
                forall|i: int| hi <= i < self.messages@.len() ==> (#[trigger] self.messages@[i]).id > canid,
            decreases hi - lo,
        {
            let mid = lo + (hi - lo) / 2;
            let id = self.messages[mid].id;
            if id == canid {
                return Ok(mid);
            } else if id < canid {
                lo = mid + 1;
            } else {
                hi = mid;
            }
        }
        Err(PoolError::NotFound)
    }

    /// Hands a frame published by the frame source to its message (see
    /// [`MessagePool::update`]).
    pub fn update_from(&mut self, data: &CanBmcData) -> (r: Result<usize, PoolError>)
        requires
            old(self).wf(),
        ensures
            final(self).wf(),
            final(self).messages@.len() == old(self).messages@.len(),
            match r {
                Ok(i) => {
                    &&& i < old(self).messages@.len()
                    &&& old(self).messages@[i as int].id == data.canid
                    &&& message_updated(old(self).messages@[i as int], final(self).messages@[i as int], data.frame_view())
                    &&& forall|k: int|
                        0 <= k < old(self).messages@.len() && k != i ==> #[trigger] final(self).messages@[k] == old(self).messages@[k]
                },
                Err(e) => {
                    &&& e == PoolError::NotFound
                    &&& *final(self) == *old(self)
                    &&& forall|k: int|
                        0 <= k < old(self).messages@.len() ==> (#[trigger] old(self).messages@[k]).id != data.canid
                },
            },
    {
        let frame = data.to_frame();
        self.update(&frame)
    }

    /// Hands `frame` to the message with its identifier, and returns that
    /// message's position; a frame of no known message changes nothing.
    pub fn update(&mut self, frame: &CanFrame) -> (r: Result<usize, PoolError>)
        requires
            old(self).wf(),
        ensures
            final(self).wf(),
            final(self).messages@.len() == old(self).messages@.len(),
            match r {
                Ok(i) => {
                    &&& i < old(self).messages@.len()
                    &&& old(self).messages@[i as int].id == frame.canid
                    &&& message_updated(old(self).messages@[i as int], final(self).messages@[i as int], frame@)
                    &&& forall|k: int|
                        0 <= k < old(self).messages@.len() && k != i ==> #[trigger] final(self).messages@[k] == old(self).messages@[k]
                },
                Err(e) => {
                    &&& e == PoolError::NotFound
                    &&& *final(self) == *old(self)
                    &&& forall|k: int|
                        0 <= k < old(self).messages@.len() ==> (#[trigger] old(self).messages@[k]).id != frame.canid
                },
            },
    {
        match self.find(frame.canid) {
            Ok(i) => {
                self.messages[i].update(frame);
                proof {
                    assert forall|a: int, b: int|
                        0 <= a < b < self.messages@.len() implies (#[trigger] self.messages@[a]).id
                        < (#[trigger] self.messages@[b]).id by {
                        assert(old(self).messages@[a].id < old(self).messages@[b].id);
                    }
                }
                Ok(i)
            },
            Err(e) => Err(e),
        }
    }
}

} // verus!