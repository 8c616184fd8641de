//! The per-chunk decision of the streaming loop.
//!
//! Each read from the input yields one chunk. [`stream_step`] decides what
//! the loop does with it: stop on a zero-byte read, discard a lone-newline
//! chunk entirely, and otherwise forward it — backup first when backup is
//! configured, then one send per target in registration order, then the tee
//! to standard output when enabled.
use vstd::prelude::*;

use crate::addr::SocketAddress;

verus! {

/// How one chunk is handed to one target's socket.
#[derive(Clone, Copy, Debug, PartialEq, Eq, Structural)]
pub enum SendKind {
    /// Send with an explicit destination address: unicast and IPv4
    /// multicast targets.
    ToAddress,
    /// Send with no destination argument on the pre-connected socket: IPv6
    /// multicast targets.
    Preconnected,
}

/// The send path a target uses: destination-less exactly for IPv6
/// multicast.
pub open spec fn spec_send_kind(target: SocketAddress) -> SendKind {
    if target.spec_is_ipv6_multicast() {
        SendKind::Preconnected
    } else {
        SendKind::ToAddress
    }
}

/// Decide the send path for one target.
pub fn send_kind(target: &SocketAddress) -> (r: SendKind)
    ensures
        r == spec_send_kind(*target),
{
    if target.is_ipv6_multicast() {
        SendKind::Preconnected
    } else {
        SendKind::ToAddress
    }
}

/// A chunk the loop discards entirely: exactly the single newline byte.
pub open spec fn spec_is_skip_chunk(chunk: Seq<u8>) -> bool {
    chunk.len() == 1 && chunk[0] == 10u8
}

/// The three shapes a loop iteration can take.
#[derive(Clone, Copy, Debug, PartialEq, Eq, Structural)]
pub enum StepKind {
    /// A zero-byte read: end of input, the loop terminates cleanly.
    Stop,
    /// A lone-newline chunk: discarded, the loop continues.
    Skip,
    /// Any other chunk: backed up, fanned out, and teed as configured.
    Forward,
}

/// Which shape the iteration for `chunk` takes.
pub open spec fn spec_step_kind(chunk: Seq<u8>) -> StepKind {
    if chunk.len() == 0 {
        StepKind::Stop
    } else if spec_is_skip_chunk(chunk) {
        StepKind::Skip
    } else {
        StepKind::Forward
    }
}

/// What the loop does with a forwarded chunk, in the order the fields are
/// listed: persist it first when `backup` is set, then perform `sends[i]`
/// for each target `i` in registration order, then copy the chunk to
/// standard output when `tee` is set.
#[derive(Debug, PartialEq, Eq)]
pub struct ForwardPlan {
    /// Persist the chunk before any send.
    pub backup: bool,
    /// One send per target, indexed in registration order.
    pub sends: Vec<SendKind>,
    /// Copy the chunk to standard output after the sends, and flush.
    pub tee: bool,
}

/// The decision for one chunk.
#[derive(Debug, PartialEq, Eq)]
pub enum StreamStep {
    /// End of input: no further sends.
    Stop,
    /// The chunk is discarded: not forwarded, not teed, not backed up.
    Skip,
    /// The chunk is processed as the plan says.
    Forward(ForwardPlan),
}

/// Decide one iteration of the streaming loop.
///
/// A zero-byte read stops the loop; a chunk of exactly the single byte
/// `\n` is discarded everywhere; every other chunk — a multi-byte chunk
/// ending in `\n` included — is forwarded: backed up first when backup is
/// configured, sent once per target in registration order on each
/// target's own send path, then teed when `tee` is set.
pub fn stream_step(chunk: &Vec<u8>, targets: &Vec<SocketAddress>, tee: bool, backup: bool) -> (r:
    StreamStep)
    ensures
        (r is Stop) == (spec_step_kind(chunk@) is Stop),
        (r is Skip) == (spec_step_kind(chunk@) is Skip),
        (r is Forward) == (spec_step_kind(chunk@) is Forward),
        r matches StreamStep::Forward(plan) ==> {
            &&& plan.backup == backup
            &&& plan.tee == tee
            &&& plan.sends@.len() == targets@.len()
            &&& forall|i: int|
                0 <= i < targets@.len() ==> plan.sends@[i] == spec_send_kind(targets@[i])
        },
{
    if chunk.len() == 0 {
        return StreamStep::Stop;
    }
    if chunk.len() == 1 && chunk[0] == 10u8 {
        return StreamStep::Skip;
    }
    let mut sends: Vec<SendKind> = Vec::new();
    let mut i: usize = 0;
    while i < targets.len()
        invariant
            i <= targets@.len(),
            sends@.len() == i,
            forall|j: int| 0 <= j < i ==> sends@[j] == spec_send_kind(targets@[j]),
        decreases targets@.len() - i,
    {
        sends.push(send_kind(&targets[i]));
        i = i + 1;
    }
    StreamStep::Forward(ForwardPlan { backup, sends, tee })
}

} // verus!
