use vstd::prelude::*;
use crate::signal::SignalValue;

verus! {

/// State of a decoded signal after its last update.
#[derive(Clone, Copy, Debug, PartialEq, Eq, Structural)]
pub enum DataStatus {
    Unset,
    Updated,
    Unchanged,
    Timeout,
    Error,
}

/// Operation code carried by a frame from the broadcast-manager transport.
#[derive(Clone, Copy, Debug, PartialEq, Eq, Structural)]
pub enum BcmOpCode {
    TxSetup,
    TxDelete,
    TxRead,
    TxSend,
    RxSetup,
    RxDelete,
    RxRead,
    TxStatus,
    TxExpired,
    RxStatus,
    RxTimeout,
    RxChanged,
    Unknown,
}

/// Which notifications a subscriber wants: only fresh data, or every
/// notification including watchdog repeats.
#[derive(Clone, Copy, Debug, PartialEq, Eq, Structural)]
#[allow(clippy::upper_case_acronyms)]
pub enum SubscribeFlag {
    NEW,
    ALL,
}

} // verus!

verus! {

/// One frame as the transport delivers it.
#[derive(Clone, Debug)]
pub struct CanFrame {
    pub canid: u32,
    pub stamp: u64,
    pub opcode: BcmOpCode,
    pub data: Vec<u8>,
}

/// What a frame holds, for specifications.
pub struct FrameView {
    pub canid: u32,
    pub stamp: u64,
    pub opcode: BcmOpCode,
    pub data: Seq<u8>,
}

impl View for CanFrame {
    type V = FrameView;

    open spec fn view(&self) -> FrameView {
        FrameView { canid: self.canid, stamp: self.stamp, opcode: self.opcode, data: self.data@ }
    }
}

impl CanFrame {
    pub fn new(canid: u32, stamp: u64, opcode: BcmOpCode, data: Vec<u8>) -> (r: CanFrame)
        ensures
            r.canid == canid,
            r.stamp == stamp,
            r.opcode == opcode,
            r.data@ == data@,
    {
        CanFrame { canid, stamp, opcode, data }
    }
}

} // verus!

verus! {

/// Error report handed to clients of the frame source.
#[derive(Clone, Debug, Default)]
pub struct CanBmcError {
    pub uid: String,
    pub status: i32,
    pub info: String,
}

impl CanBmcError {
    pub fn new(uid: String, status: i32, info: String) -> (r: CanBmcError)
        ensures
            r.uid == uid,
            r.status == status,
            r.info == info,
    {
        CanBmcError { uid, status, info }
    }

    pub fn get_uid(&self) -> (r: &String)
        ensures
            r == self.uid,
    {
        &self.uid
    }

    pub fn status(&self) -> (r: i32)
        ensures
            r == self.status,
    {
        self.status
    }

    pub fn info(&self) -> (r: &String)
        ensures
            r == self.info,
    {
        &self.info
    }
}

/// A raw frame as the frame source publishes it.
#[derive(Clone, Debug)]
pub struct CanBmcData {
    pub canid: u32,
    pub len: u8,
    pub stamp: u64,
    pub opcode: BcmOpCode,
    pub data: Vec<u8>,
}

impl CanBmcData {
    pub fn new(canid: u32, opcode: BcmOpCode, stamp: u64, data: Vec<u8>, len: u8) -> (r: CanBmcData)
        ensures
            r.canid == canid,
            r.opcode == opcode,
            r.stamp == stamp,
            r.data@ == data@,
            r.len == len,
    {
        CanBmcData { canid, len, stamp, opcode, data }
    }

    pub fn get_len(&self) -> (r: u8)
        ensures
            r == self.len,
    {
        self.len
    }

    pub fn get_stamp(&self) -> (r: u64)
        ensures
            r == self.stamp,
    {
        self.stamp
    }

    pub fn get_id(&self) -> (r: u32)
        ensures
            r == self.canid,
    {
        self.canid
    }

    pub fn get_opcode(&self) -> (r: BcmOpCode)
        ensures
            r == self.opcode,
    {
        self.opcode
    }

    pub fn get_data(&self) -> (r: &Vec<u8>)
        ensures
            r@ == self.data@,
    {
        &self.data
    }

    /// What the frame holds, for specifications.
    pub open spec fn frame_view(&self) -> FrameView {
        FrameView { canid: self.canid, stamp: self.stamp, opcode: self.opcode, data: self.data@ }
    }

    /// The frame that the decoder takes in.
    pub fn to_frame(&self) -> (r: CanFrame)
        ensures
            r@ == self.frame_view(),
    {
        let mut data: Vec<u8> = Vec::new();
        let n = self.data.len();
        let mut i: usize = 0;
        while i < n
            invariant
                n == self.data@.len(),
                i <= n,
                data@ == self.data@.subrange(0, i as int),
            decreases n - i,
        {
            data.push(self.data[i]);
            i += 1;
        }
        assert(data@ =~= self.data@);
        CanFrame { canid: self.canid, stamp: self.stamp, opcode: self.opcode, data }
    }
}

/// Snapshot of a message published to its listeners.
#[derive(Clone, Copy, Debug)]
pub struct DataBcmMsg {
    pub canid: u32,
    pub stamp: u64,
    pub status: BcmOpCode,
}

/// Snapshot of a signal published to its listeners.
#[derive(Clone, Debug)]
pub struct DataBmcSig {
    pub name: String,
    pub stamp: u64,
    pub status: DataStatus,
    pub value: SignalValue,
}

/// Upstream request to receive the frames of some identifiers, at most one
/// per `rate` and at least one per `watchdog`.
#[derive(Clone, Debug)]
pub struct SubscribeParam {
    pub rate: u64,
    pub watchdog: u64,
    pub canids: Vec<u32>,
    pub flag: SubscribeFlag,
}

impl SubscribeParam {
    pub fn new(canids: Vec<u32>, watchdog: u64, rate: u64, flag: SubscribeFlag) -> (r: SubscribeParam)
        ensures
            r.canids@ == canids@,
            r.watchdog == watchdog,
            r.rate == rate,
            r.flag == flag,
    {
        SubscribeParam { rate, watchdog, canids, flag }
    }

    pub fn get_rate(&self) -> (r: u64)
        ensures
            r == self.rate,
    {
        self.rate
    }

    pub fn get_watchdog(&self) -> (r: u64)
        ensures
            r == self.watchdog,
    {
        self.watchdog
    }

    pub fn get_canids(&self) -> (r: &Vec<u32>)
        ensures
            r@ == self.canids@,
    {
        &self.canids
    }
}

/// Upstream request to stop receiving the frames of some identifiers.
#[derive(Clone, Debug)]
pub struct UnSubscribeParam {
    pub canids: Vec<u32>,
}

impl UnSubscribeParam {
    pub fn new(canids: Vec<u32>) -> (r: UnSubscribeParam)
        ensures
            r.canids@ == canids@,
    {
        UnSubscribeParam { canids }
    }

    pub fn get_canids(&self) -> (r: &Vec<u32>)
        ensures
            r@ == self.canids@,
    {
        &self.canids
    }
}

} // verus!

verus! {

/// Settings of the frame-source service.
#[derive(Clone, Debug)]
pub struct SockcanBindingConfig {
    pub api_uid: String,
    pub event_uid: String,
    pub can_device: String,
    pub sock_api: String,
    pub info: String,
    pub acls: String,
}

/// `given` where present, else `default`.
pub open spec fn or_default(given: Option<String>, default: Seq<char>) -> Seq<char> {
    match given {
        Some(v) => v@,
        None => default,
    }
}

fn or_literal(given: Option<String>, default: &str) -> (r: String)
    ensures
        r@ == or_default(given, default@),
{
    match given {
        Some(v) => v,
        None => default.to_owned(),
    }
}

/// Fills in the frame-source settings from the options present: device
/// `vcan0`, service `sockcan`, upstream API the service's own name, empty
/// description, event `sockbmc` and permission `acl:sockcan` where absent.
pub fn parse_sockcan_config(
    dev: Option<String>,
    uid: Option<String>,
    sock_api: Option<String>,
    info: Option<String>,
    event_uid: Option<String>,
    acls: Option<String>,
) -> (r: SockcanBindingConfig)
    ensures
        r.can_device@ == or_default(dev, "vcan0"@),
        r.api_uid@ == or_default(uid, "sockcan"@),
        r.sock_api@ == or_default(sock_api, r.api_uid@),
        r.info@ == or_default(info, ""@),
        r.event_uid@ == or_default(event_uid, "sockbmc"@),
        r.acls@ == or_default(acls, "acl:sockcan"@),
{
    let can_device = or_literal(dev, "vcan0");
    let api_uid = or_literal(uid, "sockcan");
    let sock_api = match sock_api {
        Some(v) => v,
        None => api_uid.clone(),
    };
    let info = or_literal(info, "");
    let event_uid = or_literal(event_uid, "sockbmc");
    let acls = or_literal(acls, "acl:sockcan");
    SockcanBindingConfig { api_uid, event_uid, can_device, sock_api, info, acls }
}

} // verus!
