//! ŠUMU-UKIN routing — which session targets handle a query, by tribe.
//! The request framing and the reading of answer frames are here too; the
//! network fan-out itself is performed by the caller.

use vstd::prelude::*;
use crate::text::{decimal, push_decimal};

verus! {

/// Routing target for a single query fan-out.
#[derive(Debug, Clone)]
pub struct RoutingTarget {
    pub session_id: String,
    pub host: String,
    pub port: u16,
    pub tribe_id: u32,
}

/// ŠUMU-UKIN context: the known session targets.
pub struct SumuUkinContext {
    targets: Vec<RoutingTarget>,
}

/// Fan-out policy for multi-tribe queries.
#[derive(Debug, Clone, Copy, PartialEq, Eq, Structural)]
pub enum FanOutPolicy {
    /// Send to all matching targets in parallel.
    AllParallel,
    /// Send to the first matching target only.
    FirstOnly,
    /// Send to all matching targets serially.
    AllSerial,
}

/// Result of a fan-out routing attempt.
#[derive(Debug)]
pub struct FanOutResult {
    pub targets_contacted: usize,
    pub targets_failed: usize,
    pub errors: Vec<String>,
}

/// Whether a tribe filter lets a target through: an empty filter lets
/// every target through, otherwise the target's tribe id, in decimal,
/// must be listed.
pub open spec fn tribe_selected(tribes: Seq<Seq<char>>, t: RoutingTarget) -> bool {
    tribes.len() == 0 || tribes.contains(decimal(t.tribe_id as nat))
}

/// The targets a tribe filter selects, in their original order.
pub open spec fn selected_targets(targets: Seq<RoutingTarget>, tribes: Seq<Seq<char>>) -> Seq<
    RoutingTarget,
>
    decreases targets.len(),
{
    if targets.len() == 0 {
        Seq::empty()
    } else {
        let rest = selected_targets(targets.drop_last(), tribes);
        if tribe_selected(tribes, targets.last()) {
            rest.push(targets.last())
        } else {
            rest
        }
    }
}

/// The tribe filter as character sequences.
pub open spec fn tribe_views(tribes: Seq<String>) -> Seq<Seq<char>> {
    tribes.map_values(|s: String| s@)
}

impl SumuUkinContext {
    /// A routing context over the given targets.
    pub fn new(targets: Vec<RoutingTarget>) -> (c: Self)
        ensures
            c.targets() == targets@,
    {
        SumuUkinContext { targets }
    }

    /// The known targets.
    pub closed spec fn targets(&self) -> Seq<RoutingTarget> {
        self.targets@
    }

    /// Number of known targets.
    pub fn target_count(&self) -> (n: usize)
        ensures
            n == self.targets().len(),
    {
        self.targets.len()
    }

    /// The targets that handle a query with the given tribe filter (empty
    /// filter = all targets), in their original order.
    pub fn resolve(&self, tribes: &Vec<String>) -> (r: Vec<RoutingTarget>)
        ensures
            r@ == selected_targets(self.targets(), tribe_views(tribes@)),
    {
        let mut out: Vec<RoutingTarget> = Vec::new();
        let mut i: usize = 0;
        while i < self.targets.len()
            invariant
                0 <= i <= self.targets@.len(),
                out@ == selected_targets(self.targets@.subrange(0, i as int), tribe_views(tribes@)),
            decreases self.targets@.len() - i,
        {
            let t = &self.targets[i];
            let keep = tribes.len() == 0 || tribe_listed(tribes, t.tribe_id);
            proof {
                let s = self.targets@.subrange(0, i + 1);
                assert(s.drop_last() =~= self.targets@.subrange(0, i as int));
                assert(s.last() == self.targets@[i as int]);
            }
            if keep {
                out.push(copy_target(t));
            }
            i = i + 1;
        }
        assert(self.targets@.subrange(0, i as int) =~= self.targets@);
        out
    }
}

/// A field-by-field copy of a target.
fn copy_target(t: &RoutingTarget) -> (c: RoutingTarget)
    ensures
        c == *t,
{
    RoutingTarget {
        session_id: t.session_id.clone(),
        host: t.host.clone(),
        port: t.port,
        tribe_id: t.tribe_id,
    }
}

/// Whether the decimal form of `tribe_id` is listed in `tribes`.
fn tribe_listed(tribes: &Vec<String>, tribe_id: u32) -> (b: bool)
    ensures
        b == tribe_views(tribes@).contains(decimal(tribe_id as nat)),
{
    let mut id = String::new();
    push_decimal(&mut id, tribe_id as u64);
    let mut i: usize = 0;
    while i < tribes.len()
        invariant
            0 <= i <= tribes@.len(),
            id@ == decimal(tribe_id as nat),
            forall|j: int| 0 <= j < i ==> tribes@[j]@ != id@,
        decreases tribes@.len() - i,
    {
        if tribes[i] == id {
            proof {
                assert(tribe_views(tribes@)[i as int] == id@);
            }
            return true;
        }
        i = i + 1;
    }
    proof {
        if tribe_views(tribes@).contains(id@) {
            let j = choose|j: int| 0 <= j < tribe_views(tribes@).len() && tribe_views(tribes@)[j] == id@;
            assert(tribes@[j]@ == id@);
        }
    }
    false
}

/// The targets a policy contacts: the first resolved target for
/// `FirstOnly` (none when nothing resolved), every resolved target
/// otherwise.
pub fn dispatch_plan(policy: FanOutPolicy, resolved: Vec<RoutingTarget>) -> (plan: Vec<RoutingTarget>)
    ensures
        policy == FanOutPolicy::FirstOnly ==> plan@ == resolved@.take(
            if resolved@.len() == 0 { 0int } else { 1int },
        ),
        policy != FanOutPolicy::FirstOnly ==> plan@ == resolved@,
{
    match policy {
        FanOutPolicy::FirstOnly => {
            let mut resolved = resolved;
            if resolved.len() > 1 {
                resolved.truncate(1);
            }
            resolved
        },
        _ => resolved,
    }
}

/// How many dispatches succeeded.
pub open spec fn successes(outcomes: Seq<Option<String>>) -> nat
    decreases outcomes.len(),
{
    if outcomes.len() == 0 {
        0
    } else {
        successes(outcomes.drop_last()) + if outcomes.last() is None { 1nat } else { 0nat }
    }
}

/// The error messages of the failed dispatches, in order.
pub open spec fn failure_messages(outcomes: Seq<Option<String>>) -> Seq<Seq<char>>
    decreases outcomes.len(),
{
    if outcomes.len() == 0 {
        Seq::empty()
    } else {
        let rest = failure_messages(outcomes.drop_last());
        match outcomes.last() {
            Some(e) => rest.push(e@),
            None => rest,
        }
    }
}

/// Tallies the outcomes of a fan-out, one per contacted target (`None`
/// for success, the error otherwise).
pub fn tally_fan_out(outcomes: Vec<Option<String>>) -> (r: FanOutResult)
    ensures
        r.targets_contacted == successes(outcomes@),
        r.targets_failed + r.targets_contacted == outcomes@.len(),
        r.errors@.map_values(|e: String| e@) == failure_messages(outcomes@),
{
    let mut contacted: usize = 0;
    let mut failed: usize = 0;
    let mut errors: Vec<String> = Vec::new();
    let mut i: usize = 0;
    while i < outcomes.len()
        invariant
            0 <= i <= outcomes@.len(),
            contacted == successes(outcomes@.subrange(0, i as int)),
            contacted + failed == i,
            errors@.map_values(|e: String| e@) == failure_messages(outcomes@.subrange(0, i as int)),
        decreases outcomes@.len() - i,
    {
        proof {
            let t = outcomes@.subrange(0, i + 1);
            assert(t.drop_last() =~= outcomes@.subrange(0, i as int));
            assert(t.last() == outcomes@[i as int]);
        }
        match &outcomes[i] {
            None => {
                contacted = contacted + 1;
            },
            Some(e) => {
                failed = failed + 1;
                let ghost before = errors@;
                errors.push(e.clone());
                assert(errors@.map_values(|e: String| e@) =~= before.map_values(|e: String| e@).push(e@));
            },
        }
        i = i + 1;
    }
    assert(outcomes@.subrange(0, outcomes@.len() as int) =~= outcomes@);
    FanOutResult { targets_contacted: contacted, targets_failed: failed, errors }
}

/// The four little-endian bytes of a 32-bit length.
pub open spec fn le_u32_bytes(n: u32) -> Seq<u8> {
    seq![(n % 256) as u8, ((n / 256) % 256) as u8, ((n / 65536) % 256) as u8, (n / 16777216) as u8]
}

/// The 32-bit value of four little-endian bytes.
pub open spec fn le_u32_value(b: Seq<u8>) -> int {
    b[0] + 256 * b[1] + 65536 * b[2] + 16777216 * b[3]
}

/// The request a read server is sent: the query text's byte length (modulo
/// 2^32, as a 32-bit little-endian number), then the text itself.
pub fn request_frame(body: &[u8]) -> (r: Vec<u8>)
    ensures
        r@ == le_u32_bytes((body@.len() % 0x1_0000_0000) as u32) + body@,
{
    let len: u64 = body.len() as u64;
    let n: u32 = (len % 0x1_0000_0000u64) as u32;
    let mut r: Vec<u8> = Vec::new();
    r.push((n % 256) as u8);
    r.push(((n / 256) % 256) as u8);
    r.push(((n / 65536) % 256) as u8);
    r.push((n / 16777216) as u8);
    let mut i: usize = 0;
    while i < body.len()
        invariant
            0 <= i <= body@.len(),
            r@ == le_u32_bytes(n) + body@.subrange(0, i as int),
            n == body@.len() % 0x1_0000_0000,
        decreases body@.len() - i,
    {
        r.push(body[i]);
        i = i + 1;
        assert(r@ =~= le_u32_bytes(n) + body@.subrange(0, i as int));
    }
    assert(body@.subrange(0, body@.len() as int) =~= body@);
    r
}

/// The length a frame header announces: four bytes, little-endian.
pub fn frame_length(header: &[u8; 4]) -> (n: u32)
    ensures
        n == le_u32_value(header@),
{
    let b0: u32 = header[0] as u32;
    let b1: u32 = header[1] as u32;
    let b2: u32 = header[2] as u32;
    let b3: u32 = header[3] as u32;
    b0 + 256 * b1 + 65536 * b2 + 16777216 * b3
}

/// What the dispatcher makes of one frame of a read server's answer.
#[derive(Debug, Clone, Copy, PartialEq, Eq, Structural)]
pub enum FrameStep {
    /// An empty frame: the answer is complete with this many frames.
    Finished(usize),
    /// The server reported an error (the frame starts with `ERR:`).
    Refused,
    /// A data frame: this many frames so far.
    Counted(usize),
}

/// `payload` starts with the bytes of `ERR:`.
pub open spec fn is_error_frame(payload: Seq<u8>) -> bool {
    payload.len() >= 4 && payload[0] == 69 && payload[1] == 82 && payload[2] == 82 && payload[3] == 58
}

/// The dispatcher's step on a frame of length `frame_len` with contents
/// `payload`, after `frames` data frames: an empty frame ends the answer,
/// an `ERR:` frame refuses it, any other frame is counted.
pub fn next_frame(frames: usize, frame_len: u32, payload: &[u8]) -> (r: FrameStep)
    requires
        frames < usize::MAX,
    ensures
        r == if frame_len == 0 {
            FrameStep::Finished(frames)
        } else if is_error_frame(payload@) {
            FrameStep::Refused
        } else {
            FrameStep::Counted((frames + 1) as usize)
        },
{
    if frame_len == 0 {
        FrameStep::Finished(frames)
    } else if payload.len() >= 4 && payload[0] == 69 && payload[1] == 82 && payload[2] == 82 && payload[3] == 58 {
        FrameStep::Refused
    } else {
        FrameStep::Counted(frames + 1)
    }
}

/// A tribe filter routes a query to exactly the targets of the listed
/// tribes: a target is resolved if and only if it is one of the context's
/// targets and the filter is empty or lists its tribe id in decimal.
pub proof fn law_resolve_routes_to_listed_tribes(targets: Seq<RoutingTarget>, tribes: Seq<Seq<char>>, t: RoutingTarget)
    ensures
        selected_targets(targets, tribes).contains(t) <==> (targets.contains(t) && (tribes.len() == 0
            || tribes.contains(decimal(t.tribe_id as nat)))),
    decreases targets.len(),
{
    if targets.len() > 0 {
        let init = targets.drop_last();
        let l = targets.last();
        law_resolve_routes_to_listed_tribes(init, tribes, t);
        assert(targets =~= init.push(l));
        let rest = selected_targets(init, tribes);
        if targets.contains(t) && t != l {
            let k = choose|k: int| 0 <= k < targets.len() && targets[k] == t;
            assert(init[k] == t);
        }
        if init.contains(t) {
            let k = choose|k: int| 0 <= k < init.len() && init[k] == t;
            assert(targets[k] == t);
        }
        if rest.contains(t) {
            let k = choose|k: int| 0 <= k < rest.len() && rest[k] == t;
            assert(rest.push(l)[k] == t);
        }
        if rest.push(l).contains(t) && t != l {
            let k = choose|k: int| 0 <= k < rest.push(l).len() && rest.push(l)[k] == t;
            assert(rest[k] == t);
        }
        assert(targets[targets.len() - 1] == l);
        assert(rest.push(l)[rest.len() as int] == l);
    }
}

/// With no tribe filter, every target is resolved, in order.
pub proof fn law_empty_filter_routes_everywhere(targets: Seq<RoutingTarget>)
    ensures
        selected_targets(targets, Seq::empty()) == targets,
    decreases targets.len(),
{
    if targets.len() > 0 {
        law_empty_filter_routes_everywhere(targets.drop_last());
        assert(targets =~= targets.drop_last().push(targets.last()));
    }
}

} // verus!
