//! Kidinnu — the resident card seal: the canonical bytes of an
//! evacuation card and their Ed25519 seal, verifiable offline with the
//! public key (a spoofed order must not verify); and the door ledger that
//! keeps every refuge within its capacity while zones are assigned; and
//! the rule that only sealed threat templates judge.

use vstd::prelude::*;
use vstd::utf8::encode_utf8;
use crate::text::{decimal, push_decimal};
use crate::kupru::primitives::{ed25519_accepts, ed25519_public_of, ed25519_sign, ed25519_signature_of, ed25519_verify};

verus! {

/// The card text: `KIDINNU|<zone>|<siren or NO-SIREN>|<directive>|<epoch>`.
pub open spec fn card_text(zone_id: u16, siren: Option<String>, directive: Seq<char>, epoch: Seq<char>) -> Seq<char> {
    "KIDINNU|"@ + decimal(zone_id as nat) + "|"@ + match siren {
        Some(s) => s@,
        None => "NO-SIREN"@,
    } + "|"@ + directive + "|"@ + epoch
}

/// The UTF-8 bytes of a resident card.
pub fn card_bytes(zone_id: u16, siren: &Option<String>, directive: &str, epoch: &str) -> (b: Vec<u8>)
    ensures
        b@ == encode_utf8(card_text(zone_id, *siren, directive@, epoch@)),
{
    let mut s = "KIDINNU|".to_owned();
    push_decimal(&mut s, zone_id as u64);
    s.append("|");
    match siren {
        Some(t) => s.append(t.as_str()),
        None => s.append("NO-SIREN"),
    }
    s.append("|");
    s.append(directive);
    s.append("|");
    s.append(epoch);
    assert(s@ =~= card_text(zone_id, *siren, directive@, epoch@));
    let bytes = s.as_str().as_bytes();
    let mut out: Vec<u8> = Vec::new();
    crate::kupru::canonical::extend_bytes(&mut out, bytes);
    out
}

/// The Ed25519 seal of card bytes under a secret key.
pub fn seal(sk: &[u8; 32], bytes: &[u8]) -> (sig: [u8; 64])
    ensures
        sig@ == ed25519_signature_of(sk@, bytes@),
        ed25519_accepts(ed25519_public_of(sk@), bytes@, sig@),
{
    ed25519_sign(sk, bytes)
}

/// Whether a seal verifies over card bytes under a public key.
pub fn verify(vk: &[u8; 32], bytes: &[u8], sig: &[u8; 64]) -> (ok: bool)
    ensures
        ok == ed25519_accepts(vk@, bytes@, sig@),
{
    ed25519_verify(vk, bytes, sig)
}


// ── Capacity honesty ────────────────────────────────────────────────────────

/// The people already sent to each refuge, against each refuge's
/// capacity. No refuge is ever filled beyond it (no full doors).
pub struct DoorLedger {
    loads: Vec<u64>,
    caps: Vec<u32>,
}

impl DoorLedger {
    /// Well-formed: a load per refuge, each within its capacity.
    pub closed spec fn wf(&self) -> bool {
        &&& self.loads@.len() == self.caps@.len()
        &&& forall|r: int| 0 <= r < self.loads@.len() ==> #[trigger] self.loads@[r] <= self.caps@[r]
    }

    /// The people sent to each refuge so far.
    pub closed spec fn loads_view(&self) -> Seq<u64> {
        self.loads@
    }

    /// The capacity of each refuge.
    pub closed spec fn caps_view(&self) -> Seq<u32> {
        self.caps@
    }

    /// A ledger for refuges of these capacities, all empty.
    pub fn new(caps: Vec<u32>) -> (l: Self)
        ensures
            l.wf(),
            l.caps_view() == caps@,
            l.loads_view().len() == caps@.len(),
            forall|r: int| 0 <= r < caps@.len() ==> #[trigger] l.loads_view()[r] == 0,
    {
        let mut loads: Vec<u64> = Vec::new();
        let mut i: usize = 0;
        while i < caps.len()
            invariant
                0 <= i <= caps@.len(),
                loads@.len() == i,
                forall|r: int| 0 <= r < i ==> #[trigger] loads@[r] == 0,
            decreases caps@.len() - i,
        {
            loads.push(0);
            i = i + 1;
        }
        DoorLedger { loads, caps }
    }

    /// The number of refuges.
    pub fn refuges(&self) -> (n: usize)
        requires
            self.wf(),
        ensures
            n == self.caps_view().len(),
    {
        self.caps.len()
    }

    /// The people sent to refuge `r` so far.
    pub fn load(&self, r: usize) -> (n: u64)
        requires
            self.wf(),
            r < self.caps_view().len(),
        ensures
            n == self.loads_view()[r as int],
    {
        self.loads[r]
    }

    /// Whether refuge `r` still has room for `pop` more people.
    pub fn has_room(&self, r: usize, pop: u32) -> (b: bool)
        requires
            self.wf(),
            r < self.caps_view().len(),
        ensures
            b == (self.loads_view()[r as int] + pop <= self.caps_view()[r as int]),
    {
        self.loads[r] + pop as u64 <= self.caps[r] as u64
    }

    /// Sends `pop` more people to refuge `r`, which has room for them.
    pub fn send(&mut self, r: usize, pop: u32)
        requires
            old(self).wf(),
            r < old(self).caps_view().len(),
            old(self).loads_view()[r as int] + pop <= old(self).caps_view()[r as int],
        ensures
            final(self).wf(),
            final(self).caps_view() == old(self).caps_view(),
            final(self).loads_view() == old(self).loads_view().update(r as int, (old(self).loads_view()[r as int] + pop) as u64),
    {
        let next = self.loads[r] + pop as u64;
        self.loads.set(r, next);
    }
}

/// No full doors: a ledger built by `new` and `send` (both keep it
/// well formed) has every refuge's load within its capacity.
pub proof fn law_no_full_doors(l: &DoorLedger)
    requires
        l.wf(),
    ensures
        l.loads_view().len() == l.caps_view().len(),
        forall|r: int| 0 <= r < l.loads_view().len() ==> #[trigger] l.loads_view()[r] <= l.caps_view()[r],
{
}

/// Why a solve refuses to judge: only sealed threat templates may judge.
#[derive(Debug, Clone, Copy, PartialEq, Eq, Structural)]
pub enum JudgeRefusal {
    /// A template of the judging set is unsealed.
    UnsealedTemplate,
    /// The declared siren references an unsealed template.
    UnsealedSiren,
}

impl JudgeRefusal {
    /// The refusal as the solver reports it.
    pub fn message(&self) -> (m: &'static str)
        ensures
            m@ == match self {
                JudgeRefusal::UnsealedTemplate => "F5: unsealed template in S — drafts may rehearse, never judge"@,
                JudgeRefusal::UnsealedSiren => "F5: declared siren references an unsealed template"@,
            },
    {
        match self {
            JudgeRefusal::UnsealedTemplate => "F5: unsealed template in S — drafts may rehearse, never judge",
            JudgeRefusal::UnsealedSiren => "F5: declared siren references an unsealed template",
        }
    }
}

/// Every template of the set is sealed.
pub open spec fn all_sealed(sealed: Seq<bool>) -> bool {
    forall|i: int| 0 <= i < sealed.len() ==> #[trigger] sealed[i]
}

/// Drafts may rehearse, never judge: given whether each template of the
/// judging set is sealed, and whether a declared siren's template is, the
/// solve may go on only when all of them are sealed. The set is checked
/// first.
pub fn check_judging(sealed: &Vec<bool>, declared: Option<bool>) -> (r: Result<(), JudgeRefusal>)
    ensures
        r is Ok <==> all_sealed(sealed@) && (declared matches Some(d) ==> d),
        r == Err::<(), JudgeRefusal>(JudgeRefusal::UnsealedTemplate) <==> !all_sealed(sealed@),
        r == Err::<(), JudgeRefusal>(JudgeRefusal::UnsealedSiren) <==> all_sealed(sealed@) && declared == Some(false),
{
    let mut i: usize = 0;
    while i < sealed.len()
        invariant
            0 <= i <= sealed@.len(),
            forall|j: int| 0 <= j < i ==> #[trigger] sealed@[j],
        decreases sealed@.len() - i,
    {
        if !sealed[i] {
            return Err(JudgeRefusal::UnsealedTemplate);
        }
        i = i + 1;
    }
    match declared {
        Some(false) => Err(JudgeRefusal::UnsealedSiren),
        _ => Ok(()),
    }
}

} // verus!
