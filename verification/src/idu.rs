//! IDU probing: the effective state of a cross-tribe link is composed
//! from the projected states of its anchors (weakest wins), and a batch
//! of links projects each distinct anchor once. Projecting an anchor's
//! state reads the journal and happens outside the library.

use vstd::prelude::*;

verus! {

/// The projected state of an anchor particle.
#[derive(Debug, Clone, Copy, PartialEq, Eq, Structural)]
pub enum ParticleState {
    Golden,
    Fuzzy,
    Dead,
}

/// The effective state of a cross-tribe link.
#[derive(Debug, Clone, Copy, PartialEq, Eq, Structural)]
pub enum CrossTribeLinkState {
    Gold,
    Orange,
    Gray,
}

/// The strength of a link state: Gray < Orange < Gold.
pub open spec fn link_rank(s: CrossTribeLinkState) -> int {
    match s {
        CrossTribeLinkState::Gray => 0,
        CrossTribeLinkState::Orange => 1,
        CrossTribeLinkState::Gold => 2,
    }
}

/// The weakest-wins composition of anchor states: no anchors or any dead
/// anchor gives Gray, all golden gives Gold, anything else Orange.
pub open spec fn composed(states: Seq<ParticleState>) -> CrossTribeLinkState {
    if states.len() == 0 || states.contains(ParticleState::Dead) {
        CrossTribeLinkState::Gray
    } else if forall|i: int| 0 <= i < states.len() ==> states[i] == ParticleState::Golden {
        CrossTribeLinkState::Gold
    } else {
        CrossTribeLinkState::Orange
    }
}

/// Composes the states of a link's anchors (weakest wins).
pub fn compose_n_anchors(states: &[ParticleState]) -> (s: CrossTribeLinkState)
    ensures
        s == composed(states@),
{
    if states.len() == 0 {
        return CrossTribeLinkState::Gray;
    }
    let mut i: usize = 0;
    let mut all_golden = true;
    while i < states.len()
        invariant
            0 <= i <= states@.len(),
            forall|j: int| 0 <= j < i ==> states@[j] != ParticleState::Dead,
            all_golden == forall|j: int| 0 <= j < i ==> states@[j] == ParticleState::Golden,
        decreases states@.len() - i,
    {
        if states[i] == ParticleState::Dead {
            assert(states@[i as int] == ParticleState::Dead);
            return CrossTribeLinkState::Gray;
        }
        if states[i] != ParticleState::Golden {
            all_golden = false;
        }
        i = i + 1;
    }
    if all_golden {
        CrossTribeLinkState::Gold
    } else {
        CrossTribeLinkState::Orange
    }
}

/// Adding an anchor never strengthens a link: the composition is the
/// meet of its anchors.
pub proof fn law_composition_weakest_wins(states: Seq<ParticleState>, extra: ParticleState)
    requires
        states.len() > 0,
    ensures
        link_rank(composed(states.push(extra))) <= link_rank(composed(states)),
        extra == ParticleState::Dead ==> composed(states.push(extra)) == CrossTribeLinkState::Gray,
{
    let t = states.push(extra);
    if states.contains(ParticleState::Dead) {
        let k = choose|k: int| 0 <= k < states.len() && states[k] == ParticleState::Dead;
        assert(t[k] == ParticleState::Dead);
    }
    if extra == ParticleState::Dead {
        assert(t[states.len() as int] == ParticleState::Dead);
    }
    if !(forall|i: int| 0 <= i < states.len() ==> states[i] == ParticleState::Golden) {
        let k = choose|k: int| 0 <= k < states.len() && states[k] != ParticleState::Golden;
        assert(t[k] == states[k]);
    }
}

/// The outcome of one probe: the link state and the anchor states it was
/// composed from.
#[derive(Debug, Clone)]
pub struct IduProbeResult {
    pub link_state: CrossTribeLinkState,
    pub anchor_states: Vec<ParticleState>,
    /// How many anchor projections ran.
    pub projections_run: usize,
}

impl IduProbeResult {
    /// The probe result for the projected states of a link's anchors.
    pub fn from_anchor_states(anchor_states: Vec<ParticleState>) -> (r: Self)
        ensures
            r.link_state == composed(anchor_states@),
            r.anchor_states@ == anchor_states@,
            r.projections_run == anchor_states@.len(),
    {
        let link_state = compose_n_anchors(anchor_states.as_slice());
        let projections_run = anchor_states.len();
        IduProbeResult { link_state, anchor_states, projections_run }
    }
}

/// A request to probe one link: its id and its anchors' identity keys.
#[derive(Debug, Clone)]
pub struct LinkProbeRequest {
    pub link_id: u32,
    pub anchors: Vec<[u8; 16]>,
}

/// The state of one link of a batch.
#[derive(Debug, Clone, Copy)]
pub struct LinkResult {
    pub link_id: u32,
    pub link_state: CrossTribeLinkState,
}

/// The outcome of a batch.
#[derive(Debug, Clone)]
pub struct BatchResult {
    pub results: Vec<LinkResult>,
    pub links_probed: usize,
    pub unique_anchors: usize,
    pub projections_run: usize,
}

/// Whether two identity keys are equal.
fn same_key(a: &[u8; 16], b: &[u8; 16]) -> (e: bool)
    ensures
        e == (a@ == b@),
{
    let mut i: usize = 0;
    while i < 16
        invariant
            0 <= i <= 16,
            a@.len() == 16,
            b@.len() == 16,
            forall|j: int| 0 <= j < i ==> a@[j] == b@[j],
        decreases 16 - i,
    {
        if a[i] != b[i] {
            return false;
        }
        i = i + 1;
    }
    assert(a@ =~= b@);
    true
}

/// The key occurs in the list.
pub open spec fn has_key(keys: Seq<[u8; 16]>, k: Seq<u8>) -> bool {
    exists|i: int| 0 <= i < keys.len() && (#[trigger] keys[i])@ == k
}

/// The key is an anchor of one of the requests.
pub open spec fn requested(requests: Seq<LinkProbeRequest>, k: Seq<u8>) -> bool {
    exists|i: int| 0 <= i < requests.len() && has_key(#[trigger] requests[i].anchors@, k)
}

/// No key occurs twice.
pub open spec fn distinct_keys(keys: Seq<[u8; 16]>) -> bool {
    forall|i: int, j: int| 0 <= i < j < keys.len() ==> (#[trigger] keys[i])@ != (#[trigger] keys[j])@
}

/// Whether a key is in a list.
fn find_key(keys: &Vec<[u8; 16]>, k: &[u8; 16]) -> (r: Option<usize>)
    ensures
        r matches Some(i) ==> (i < keys@.len() && keys@[i as int]@ == k@ && forall|j: int|
            0 <= j < i ==> (#[trigger] keys@[j])@ != k@),
        r is None ==> !has_key(keys@, k@),
{
    let mut i: usize = 0;
    while i < keys.len()
        invariant
            0 <= i <= keys@.len(),
            forall|j: int| 0 <= j < i ==> (#[trigger] keys@[j])@ != k@,
        decreases keys@.len() - i,
    {
        if same_key(&keys[i], k) {
            return Some(i);
        }
        i = i + 1;
    }
    proof {
        false_key_absent(keys@, k@);
    }
    None
}

/// A key unequal to every element does not occur.
proof fn false_key_absent(keys: Seq<[u8; 16]>, k: Seq<u8>)
    requires
        forall|j: int| 0 <= j < keys.len() ==> (#[trigger] keys[j])@ != k,
    ensures
        !has_key(keys, k),
{
}

/// A key occurs after a push iff it occurred before or is the new one.
proof fn lemma_has_key_push(keys: Seq<[u8; 16]>, a: [u8; 16], k: Seq<u8>)
    ensures
        has_key(keys.push(a), k) <==> (has_key(keys, k) || a@ == k),
{
    let t = keys.push(a);
    if has_key(keys, k) {
        let x = choose|x: int| 0 <= x < keys.len() && (#[trigger] keys[x])@ == k;
        assert(t[x] == keys[x]);
    }
    if a@ == k {
        assert(t[keys.len() as int] == a);
    }
    if has_key(t, k) {
        let x = choose|x: int| 0 <= x < t.len() && (#[trigger] t[x])@ == k;
        if x < keys.len() {
            assert(t[x] == keys[x]);
        }
    }
}

/// Extending a prefix by one element adds that element's key.
proof fn lemma_has_key_extend(keys: Seq<[u8; 16]>, j: int)
    requires
        0 <= j < keys.len(),
    ensures
        forall|k: Seq<u8>|
            has_key(keys.subrange(0, j + 1), k) <==> (has_key(keys.subrange(0, j), k) || keys[j]@ == k),
{
    assert(keys.subrange(0, j + 1) =~= keys.subrange(0, j).push(keys[j]));
    assert forall|k: Seq<u8>|
        has_key(keys.subrange(0, j + 1), k) <==> (has_key(keys.subrange(0, j), k) || keys[j]@ == k) by {
        lemma_has_key_push(keys.subrange(0, j), keys[j], k);
    }
}

/// Extending a prefix of requests by one adds that request's anchors.
proof fn lemma_requested_extend(reqs: Seq<LinkProbeRequest>, i: int)
    requires
        0 <= i < reqs.len(),
    ensures
        forall|k: Seq<u8>|
            requested(reqs.subrange(0, i + 1), k) <==> (requested(reqs.subrange(0, i), k) || has_key(
                reqs[i].anchors@,
                k,
            )),
{
    let a = reqs.subrange(0, i);
    let b = reqs.subrange(0, i + 1);
    assert forall|k: Seq<u8>| requested(b, k) <==> (requested(a, k) || has_key(reqs[i].anchors@, k)) by {
        if requested(b, k) {
            let r = choose|r: int| 0 <= r < b.len() && has_key(#[trigger] b[r].anchors@, k);
            if r < i {
                assert(a[r] == b[r]);
            } else {
                assert(b[r] == reqs[i]);
            }
        }
        if requested(a, k) {
            let r = choose|r: int| 0 <= r < a.len() && has_key(#[trigger] a[r].anchors@, k);
            assert(b[r] == a[r]);
        }
        if has_key(reqs[i].anchors@, k) {
            assert(b[i] == reqs[i]);
        }
    }
}

/// The distinct anchors of a batch, each once, in first-seen order.
pub fn unique_anchors(requests: &Vec<LinkProbeRequest>) -> (u: Vec<[u8; 16]>)
    ensures
        distinct_keys(u@),
        forall|k: Seq<u8>| has_key(u@, k) <==> requested(requests@, k),
{
    let mut u: Vec<[u8; 16]> = Vec::new();
    let mut i: usize = 0;
    while i < requests.len()
        invariant
            0 <= i <= requests@.len(),
            distinct_keys(u@),
            forall|k: Seq<u8>| has_key(u@, k) <==> requested(requests@.subrange(0, i as int), k),
        decreases requests@.len() - i,
    {
        let anchors = &requests[i].anchors;
        let ghost before = u@;
        let mut j: usize = 0;
        while j < anchors.len()
            invariant
                0 <= j <= anchors@.len(),
                0 <= i < requests@.len(),
                anchors@ == requests@[i as int].anchors@,
                distinct_keys(u@),
                forall|k: Seq<u8>|
                    #![trigger has_key(u@, k)]
                    has_key(u@, k) <==> (has_key(before, k) || has_key(anchors@.subrange(0, j as int), k)),
            decreases anchors@.len() - j,
        {
            let a = anchors[j];
            let ghost prev = u@;
            assert(forall|k: Seq<u8>|
                has_key(prev, k) <==> (has_key(before, k) || has_key(anchors@.subrange(0, j as int), k)));
            let found = find_key(&u, &a);
            if found.is_none() {
                u.push(a);
                proof {
                    assert forall|x: int, y: int| 0 <= x < y < u@.len() implies (#[trigger] u@[x])@
                        != (#[trigger] u@[y])@ by {
                        if y == u@.len() - 1 {
                            assert(u@[x] == prev[x]);
                            if u@[x]@ == a@ {
                                assert(has_key(prev, a@));
                            }
                        } else {
                            assert(u@[x] == prev[x] && u@[y] == prev[y]);
                        }
                    }
                }
            }
            proof {
                lemma_has_key_extend(anchors@, j as int);
                assert(anchors@[j as int] == a);
                assert forall|k: Seq<u8>|
                    #![trigger has_key(u@, k)]
                    has_key(u@, k) <==> (has_key(before, k) || has_key(anchors@.subrange(0, j + 1), k)) by {
                    assert(has_key(prev, k) <==> (has_key(before, k) || has_key(
                        anchors@.subrange(0, j as int),
                        k,
                    )));
                    assert(has_key(anchors@.subrange(0, j + 1), k) <==> (has_key(
                        anchors@.subrange(0, j as int),
                        k,
                    ) || anchors@[j as int]@ == k));
                    match found {
                        None => {
                            lemma_has_key_push(prev, a, k);
                        },
                        Some(x) => {
                            if a@ == k {
                                assert(prev[x as int]@ == k);
                            }
                        },
                    }
                }
            }
            j = j + 1;
        }
        proof {
            assert(anchors@.subrange(0, anchors@.len() as int) =~= anchors@);
            lemma_requested_extend(requests@, i as int);
            assert forall|k: Seq<u8>| has_key(u@, k) <==> requested(requests@.subrange(0, i + 1), k) by {
                assert(has_key(u@, k) <==> (has_key(before, k) || has_key(anchors@, k)));
            }
        }
        i = i + 1;
    }
    proof {
        assert(requests@.subrange(0, requests@.len() as int) =~= requests@);
    }
    u
}

/// The projected state of an anchor: that recorded for the first equal
/// key, Fuzzy when the key was not projected.
pub open spec fn state_for(keys: Seq<[u8; 16]>, states: Seq<ParticleState>, k: Seq<u8>) -> ParticleState {
    if exists|i: int| 0 <= i < keys.len() && (#[trigger] keys[i])@ == k && forall|j: int|
        0 <= j < i ==> keys[j]@ != k {
        states[choose|i: int|
            0 <= i < keys.len() && (#[trigger] keys[i])@ == k && forall|j: int| 0 <= j < i ==> keys[j]@ != k]
    } else {
        ParticleState::Fuzzy
    }
}

/// The state of one anchor from the batch's projections.
fn lookup_state(keys: &Vec<[u8; 16]>, states: &Vec<ParticleState>, k: &[u8; 16]) -> (s: ParticleState)
    requires
        keys@.len() == states@.len(),
    ensures
        s == state_for(keys@, states@, k@),
{
    match find_key(keys, k) {
        Some(i) => {
            proof {
                let w = choose|x: int|
                    0 <= x < keys@.len() && (#[trigger] keys@[x])@ == k@ && forall|j: int|
                        0 <= j < x ==> keys@[j]@ != k@;
                if w < i {
                } else if w > i {
                    assert(keys@[i as int]@ == k@);
                }
            }
            states[i]
        },
        None => {
            proof {
                if exists|x: int| 0 <= x < keys@.len() && (#[trigger] keys@[x])@ == k@ && forall|j: int|
                    0 <= j < x ==> keys@[j]@ != k@ {
                    let w = choose|x: int|
                        0 <= x < keys@.len() && (#[trigger] keys@[x])@ == k@ && forall|j: int|
                            0 <= j < x ==> keys@[j]@ != k@;
                    assert(has_key(keys@, k@));
                }
            }
            ParticleState::Fuzzy
        },
    }
}

/// The anchor states of one link.
pub open spec fn link_states(keys: Seq<[u8; 16]>, states: Seq<ParticleState>, anchors: Seq<[u8; 16]>) -> Seq<ParticleState> {
    anchors.map_values(|a: [u8; 16]| state_for(keys, states, a@))
}

/// Composes every link of a batch from the states projected once per
/// distinct anchor (`keys[i]` projected to `states[i]`).
pub fn compose_batch(requests: &Vec<LinkProbeRequest>, keys: &Vec<[u8; 16]>, states: &Vec<ParticleState>) -> (b: BatchResult)
    requires
        keys@.len() == states@.len(),
    ensures
        b.results@.len() == requests@.len(),
        forall|i: int|
            0 <= i < requests@.len() ==> {
                &&& (#[trigger] b.results@[i]).link_id == requests@[i].link_id
                &&& b.results@[i].link_state == composed(link_states(keys@, states@, requests@[i].anchors@))
            },
        b.links_probed == requests@.len(),
        b.unique_anchors == keys@.len(),
        b.projections_run == keys@.len(),
{
    let mut results: Vec<LinkResult> = Vec::new();
    let mut i: usize = 0;
    while i < requests.len()
        invariant
            0 <= i <= requests@.len(),
            keys@.len() == states@.len(),
            results@.len() == i,
            forall|r: int|
                0 <= r < i ==> {
                    &&& (#[trigger] results@[r]).link_id == requests@[r].link_id
                    &&& results@[r].link_state == composed(link_states(keys@, states@, requests@[r].anchors@))
                },
        decreases requests@.len() - i,
    {
        let anchors = &requests[i].anchors;
        let mut link: Vec<ParticleState> = Vec::new();
        let mut j: usize = 0;
        while j < anchors.len()
            invariant
                0 <= j <= anchors@.len(),
                keys@.len() == states@.len(),
                link@ == link_states(keys@, states@, anchors@.subrange(0, j as int)),
            decreases anchors@.len() - j,
        {
            let s = lookup_state(keys, states, &anchors[j]);
            link.push(s);
            j = j + 1;
            assert(link@ =~= link_states(keys@, states@, anchors@.subrange(0, j as int)));
        }
        assert(anchors@.subrange(0, anchors@.len() as int) =~= anchors@);
        let link_state = compose_n_anchors(link.as_slice());
        results.push(LinkResult { link_id: requests[i].link_id, link_state });
        i = i + 1;
    }
    let links_probed = results.len();
    BatchResult { results, links_probed, unique_anchors: keys.len(), projections_run: keys.len() }
}

/// Composition judges a link by which states its anchors have, in any
/// order and however often: a link is Gray exactly when it has no anchors
/// or a dead one, Gold exactly when it has anchors and all are golden,
/// and Orange otherwise; two anchor lists with the same states compose
/// alike.
pub proof fn law_composition_by_states(s: Seq<ParticleState>, t: Seq<ParticleState>)
    ensures
        (composed(s) == CrossTribeLinkState::Gray) <==> (s.len() == 0 || s.contains(ParticleState::Dead)),
        (composed(s) == CrossTribeLinkState::Gold) <==> (s.len() > 0 && !s.contains(ParticleState::Fuzzy)
            && !s.contains(ParticleState::Dead)),
        (composed(s) == CrossTribeLinkState::Orange) <==> (s.contains(ParticleState::Fuzzy) && !s.contains(
            ParticleState::Dead,
        )),
        (forall|x: ParticleState| s.contains(x) <==> t.contains(x)) ==> composed(s) == composed(t),
{
    lemma_composed_by_states(s);
    lemma_composed_by_states(t);
}

/// `composed` read off which states occur.
proof fn lemma_composed_by_states(s: Seq<ParticleState>)
    ensures
        composed(s) == if s.len() == 0 || s.contains(ParticleState::Dead) {
            CrossTribeLinkState::Gray
        } else if s.contains(ParticleState::Fuzzy) {
            CrossTribeLinkState::Orange
        } else {
            CrossTribeLinkState::Gold
        },
        s.len() > 0 <==> (s.contains(ParticleState::Golden) || s.contains(ParticleState::Fuzzy) || s.contains(
            ParticleState::Dead,
        )),
{
    if s.len() > 0 {
        assert(s.contains(s[0]));
    }
    if !(forall|i: int| 0 <= i < s.len() ==> s[i] == ParticleState::Golden) {
        let k = choose|k: int| 0 <= k < s.len() && s[k] != ParticleState::Golden;
        assert(s.contains(s[k]));
    }
    if s.contains(ParticleState::Fuzzy) {
        let k = choose|k: int| 0 <= k < s.len() && s[k] == ParticleState::Fuzzy;
        assert(s[k] != ParticleState::Golden);
    }
}

} // verus!
