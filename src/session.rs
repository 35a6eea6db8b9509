use vstd::prelude::*;
use crate::types::{BcmOpCode, SubscribeParam};

verus! {

/// Why the frame source refused a subscription request.
#[derive(Clone, Debug, PartialEq, Eq)]
pub enum SessionError {
    /// The request names no identifier.
    EmptyCanids,
    /// The filters of these identifiers could not be installed or removed.
    FailedCanids(Vec<u32>),
}

/// Refuses a request that names no identifier.
pub fn check_canids(canids: &Vec<u32>) -> (r: Result<(), SessionError>)
    ensures
        r is Ok <==> canids@.len() > 0,
        r is Err ==> r == Err::<(), SessionError>(SessionError::EmptyCanids),
{
    if canids.len() == 0 {
        Err(SessionError::EmptyCanids)
    } else {
        Ok(())
    }
}

/// Timers (rate, watchdog) to arm on a receive filter: only when the
/// request asks for one of them.
pub fn rx_timers(param: &SubscribeParam) -> (r: Option<(u64, u64)>)
    ensures
        r == if param.rate > 0 || param.watchdog > 0 {
            Some((param.rate, param.watchdog))
        } else {
            None
        },
{
    if param.rate > 0 || param.watchdog > 0 {
        Some((param.rate, param.watchdog))
    } else {
        None
    }
}

/// The identifiers of `canids` whose filter operation failed, in order.
pub open spec fn failed_ids(canids: Seq<u32>, ok: Seq<bool>) -> Seq<u32>
    decreases canids.len(),
{
    if canids.len() == 0 {
        Seq::empty()
    } else {
        let rest = failed_ids(canids.drop_last(), ok.subrange(0, canids.len() - 1));
        if ok[canids.len() - 1] {
            rest
        } else {
            rest.push(canids.last())
        }
    }
}

/// Outcome of a filter operation on each of `canids`, `ok[i]` telling
/// whether the one on `canids[i]` succeeded: an error listing every
/// identifier that failed, if any did.
pub fn filter_outcome(canids: &Vec<u32>, ok: &Vec<bool>) -> (r: Result<(), SessionError>)
    requires
        canids@.len() == ok@.len(),
    ensures
        failed_ids(canids@, ok@).len() == 0 ==> r is Ok,
        failed_ids(canids@, ok@).len() > 0 ==> (r matches Err(SessionError::FailedCanids(v)) && v@
            == failed_ids(canids@, ok@)),
{
    let n = canids.len();
    let mut failed: Vec<u32> = Vec::new();
    let mut i: usize = 0;
    while i < n
        invariant
            n == canids@.len(),
            n == ok@.len(),
            i <= n,
            failed@ == failed_ids(canids@.subrange(0, i as int), ok@.subrange(0, i as int)),
        decreases n - i,
    {
        proof {
            assert(canids@.subrange(0, i + 1).drop_last() =~= canids@.subrange(0, i as int));
            assert(ok@.subrange(0, i + 1).subrange(0, i as int) =~= ok@.subrange(0, i as int));
        }
        if !ok[i] {
            failed.push(canids[i]);
        }
        i += 1;
    }
    proof {
        assert(canids@.subrange(0, n as int) =~= canids@);
        assert(ok@.subrange(0, n as int) =~= ok@);
    }
    if failed.len() == 0 {
        Ok(())
    } else {
        Err(SessionError::FailedCanids(failed))
    }
}

/// Whether the receive filter of a frame's identifier must be armed again:
/// after a timeout notification whose identifier could be read.
pub fn rearm_after(opcode: BcmOpCode, id_known: bool) -> (r: bool)
    ensures
        r == (opcode == BcmOpCode::RxTimeout && id_known),
{
    id_known && opcode == BcmOpCode::RxTimeout
}

/// Whether a session whose last publication reached `listeners` listeners
/// is to be closed.
pub fn closes_session(listeners: i32) -> (r: bool)
    ensures
        r == (listeners < 1),
{
    listeners < 1
}

} // verus!
