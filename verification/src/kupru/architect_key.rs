//! ArchitectKey — the root of trust split into Shamir shares, M of N of
//! which rebuild the signing key that mints architect passports.

use vstd::prelude::*;
use crate::text::{decimal, push_decimal};
use crate::kupru::akkadian_root::{AkkadianName, LinguisticProof, array32};
use crate::kupru::akkadian_seal::SealKeyPair;
use crate::kupru::error::{KupruError, KupruResult};
use crate::kupru::passport::{IshtarLayer, NaruLayer};
use crate::kupru::primitives::{byte_shares, random_bytes, sharks_deal, sharks_recover, sharks_recovered_of, share_xs, shares_same_len};

verus! {

/// One share of a split architect key.
#[derive(Debug, Clone)]
pub struct ArchitectKeyShare {
    /// The split the share belongs to.
    pub split_id: [u8; 16],
    /// The share's index within the split.
    pub index: u8,
    /// Shares needed to rebuild the key.
    pub threshold: u8,
    /// Shares made by the split.
    pub total_shares: u8,
    /// The secret share: x coordinate, then the y values.
    pub share_bytes: Vec<u8>,
}

/// Copies 16 bytes into an array.
fn split_id_from(v: &[u8]) -> (a: [u8; 16])
    requires
        v@.len() == 16,
    ensures
        a@ == v@,
{
    let mut a = [0u8; 16];
    let mut i: usize = 0;
    while i < 16
        invariant
            v@.len() == 16,
            0 <= i <= 16,
            a@.len() == 16,
            forall|j: int| 0 <= j < i ==> a@[j] == v@[j],
        decreases 16 - i,
    {
        a[i] = v[i];
        i = i + 1;
    }
    assert(a@ =~= v@);
    a
}

/// Whether two split ids are equal.
fn same_id(a: &[u8; 16], b: &[u8; 16]) -> (e: bool)
    ensures
        e == (a@ == b@),
{
    let mut i: usize = 0;
    while i < 16
        invariant
            0 <= i <= 16,
            a@.len() == 16,
            b@.len() == 16,
            forall|j: int| 0 <= j < i ==> a@[j] == b@[j],
        decreases 16 - i,
    {
        if a[i] != b[i] {
            return false;
        }
        i = i + 1;
    }
    assert(a@ =~= b@);
    true
}

/// Splits a key pair's signing key into `total_shares` shares, any
/// `threshold` of which rebuild it. A threshold below 2, or more
/// required shares than made, is refused.
pub fn split_architect_key(keypair: &SealKeyPair, threshold: u8, total_shares: u8) -> (r: KupruResult<Vec<ArchitectKeyShare>>)
    ensures
        threshold < 2 ==> (r matches Err(KupruError::InvalidInput(m)) && m@
            == "DŪRU: threshold must be >= 2 -- a threshold of 1 means any single share reconstructs the key, defeating the split entirely"@),
        (threshold >= 2 && total_shares < threshold) ==> (r matches Err(KupruError::InvalidInput(m)) && m@
            == "DŪRU: total_shares must be >= threshold"@),
        (threshold >= 2 && total_shares >= threshold) ==> (r matches Ok(shares) && shares@.len() == total_shares && forall|i: int|
            0 <= i < total_shares ==> {
                &&& (#[trigger] shares@[i]).index == i
                &&& shares@[i].threshold == threshold
                &&& shares@[i].total_shares == total_shares
                &&& shares@[i].split_id == shares@[0].split_id
                &&& shares@[i].share_bytes@.len() == 33
                &&& shares@[i].share_bytes@[0] == i + 1
            }),
{
    if threshold < 2 {
        return Err(
            KupruError::InvalidInput(
                "DŪRU: threshold must be >= 2 -- a threshold of 1 means any single share reconstructs the key, defeating the split entirely".to_owned(),
            ),
        );
    }
    if total_shares < threshold {
        return Err(KupruError::InvalidInput("DŪRU: total_shares must be >= threshold".to_owned()));
    }
    let idv = random_bytes(16);
    let split_id = split_id_from(idv.as_slice());
    let secret = keypair.signing_key_bytes();
    let dealt = sharks_deal(&secret, threshold, total_shares as usize);
    let mut shares: Vec<ArchitectKeyShare> = Vec::new();
    let mut i: usize = 0;
    let ghost dealt0 = dealt@;
    while i < total_shares as usize
        invariant
            threshold >= 2,
            dealt@.len() == total_shares,
            0 <= i <= total_shares,
            shares@.len() == i,
            dealt@ == dealt0,
            forall|k: int| 0 <= k < total_shares ==> (#[trigger] dealt0[k])@.len() == 33,
            forall|k: int| 0 <= k < total_shares ==> (#[trigger] dealt0[k])@[0] == k + 1,
            forall|k: int|
                0 <= k < i ==> {
                    &&& (#[trigger] shares@[k]).index == k
                    &&& shares@[k].threshold == threshold
                    &&& shares@[k].total_shares == total_shares
                    &&& shares@[k].split_id == split_id
                    &&& shares@[k].share_bytes@ == dealt0[k]@
                },
        decreases total_shares - i,
    {
        let bytes = dealt[i].clone();
        assert(bytes@ =~= dealt0[i as int]@);
        shares.push(ArchitectKeyShare {
            split_id,
            index: i as u8,
            threshold,
            total_shares,
            share_bytes: bytes,
        });
        i = i + 1;
    }
    Ok(shares)
}

/// The byte shares of a list of architect shares.
pub open spec fn share_bytes_of(shares: Seq<ArchitectKeyShare>) -> Seq<Vec<u8>> {
    shares.map_values(|s: ArchitectKeyShare| s.share_bytes)
}

/// Why a list of shares cannot be combined, checked in order.
pub enum ShareRefusal {
    NoShares,
    MixedSplits,
    TooFew,
    Malformed,
    Unrecoverable,
    WrongLength,
}

/// The first share whose bytes are too short to parse, if any.
pub open spec fn first_malformed(shares: Seq<ArchitectKeyShare>) -> bool {
    exists|i: int| 0 <= i < shares.len() && (#[trigger] shares[i]).share_bytes@.len() < 2
}

/// All shares carry the split id of the first.
pub open spec fn same_split(shares: Seq<ArchitectKeyShare>) -> bool {
    forall|i: int| 0 <= i < shares.len() ==> (#[trigger] shares[i]).split_id@ == shares[0].split_id@
}

/// How a reconstruction ends, in the order the checks run.
pub open spec fn reconstruction_outcome(shares: Seq<ArchitectKeyShare>) -> Option<ShareRefusal> {
    let bs = byte_shares(share_bytes_of(shares));
    if shares.len() == 0 {
        Some(ShareRefusal::NoShares)
    } else if !same_split(shares) {
        Some(ShareRefusal::MixedSplits)
    } else if shares.len() % 256 < shares[0].threshold {
        Some(ShareRefusal::TooFew)
    } else if first_malformed(shares) {
        Some(ShareRefusal::Malformed)
    } else if !(shares_same_len(bs) && share_xs(bs).len() >= shares[0].threshold) {
        Some(ShareRefusal::Unrecoverable)
    } else if sharks_recovered_of(shares[0].threshold, bs).len() != 32 {
        Some(ShareRefusal::WrongLength)
    } else {
        None
    }
}

/// Rebuilds the architect key pair from shares of one split: refuses an
/// empty list, shares of different splits, fewer shares than the
/// threshold (counted modulo 256), a malformed share, shares sharks
/// cannot combine, and a rebuilt key that is not 32 bytes.
pub fn reconstruct_architect_key(shares: &[ArchitectKeyShare]) -> (r: KupruResult<SealKeyPair>)
    ensures
        match reconstruction_outcome(shares@) {
            None => r matches Ok(k) && k.keys_match() && k.signing_view() == sharks_recovered_of(
                shares@[0].threshold,
                byte_shares(share_bytes_of(shares@)),
            ),
            Some(ShareRefusal::NoShares) => r matches Err(KupruError::InvalidInput(m)) && m@
                == "DŪRU: no shares provided"@,
            Some(ShareRefusal::MixedSplits) => r matches Err(KupruError::InvalidInput(m)) && m@
                == "DŪRU: shares from different splits cannot be combined -- check they all came from the same split_id"@,
            Some(ShareRefusal::TooFew) => r matches Err(KupruError::InvalidInput(m)) && m@ == "DŪRU: "@
                + decimal(shares@.len() as nat) + " shares provided, but this split requires "@ + decimal(
                shares@[0].threshold as nat,
            ),
            Some(ShareRefusal::Malformed) => r matches Err(KupruError::Crypto(m)) && m@
                == "NAKRU: malformed share: A Share must be at least 2 bytes long"@,
            Some(ShareRefusal::Unrecoverable) => r matches Err(KupruError::Crypto(m)) && m@
                == "NAKRU: reconstruction failed: "@ + crate::kupru::primitives::recover_error_text(
                byte_shares(share_bytes_of(shares@)),
            ),
            Some(ShareRefusal::WrongLength) => r matches Err(KupruError::Crypto(m)) && m@
                == "NAKRU: reconstructed key has the wrong length -- shares may be corrupt or from an unrelated split"@,
        },
{
    if shares.len() == 0 {
        return Err(KupruError::InvalidInput("DŪRU: no shares provided".to_owned()));
    }
    let split_id = shares[0].split_id;
    let threshold = shares[0].threshold;
    let mut i: usize = 0;
    while i < shares.len()
        invariant
            0 <= i <= shares@.len(),
            shares@.len() > 0,
            split_id@ == shares@[0].split_id@,
            forall|j: int| 0 <= j < i ==> (#[trigger] shares@[j]).split_id@ == split_id@,
        decreases shares@.len() - i,
    {
        if !same_id(&shares[i].split_id, &split_id) {
            return Err(
                KupruError::InvalidInput(
                    "DŪRU: shares from different splits cannot be combined -- check they all came from the same split_id".to_owned(),
                ),
            );
        }
        i = i + 1;
    }
    assert(same_split(shares@));
    let count: u8 = (shares.len() % 256) as u8;
    if count < threshold {
        let mut m = "DŪRU: ".to_owned();
        push_decimal(&mut m, shares.len() as u64);
        m.append(" shares provided, but this split requires ");
        push_decimal(&mut m, threshold as u64);
        return Err(KupruError::InvalidInput(m));
    }
    let mut bytes: Vec<Vec<u8>> = Vec::new();
    let mut j: usize = 0;
    while j < shares.len()
        invariant
            0 <= j <= shares@.len(),
            shares@.len() > 0,
            same_split(shares@),
            shares@.len() % 256 >= shares@[0].threshold,
            bytes@.len() == j,
            forall|k: int| 0 <= k < j ==> (#[trigger] bytes@[k])@ == shares@[k].share_bytes@,
            forall|k: int| 0 <= k < j ==> (#[trigger] shares@[k]).share_bytes@.len() >= 2,
        decreases shares@.len() - j,
    {
        if shares[j].share_bytes.len() < 2 {
            assert(shares@[j as int].share_bytes@.len() < 2);
            return Err(KupruError::Crypto("NAKRU: malformed share: A Share must be at least 2 bytes long".to_owned()));
        }
        let b = shares[j].share_bytes.clone();
        assert(b@ =~= shares@[j as int].share_bytes@);
        bytes.push(b);
        j = j + 1;
    }
    assert(byte_shares(bytes@) =~= byte_shares(share_bytes_of(shares@)));
    let recovered = match sharks_recover(threshold, &bytes) {
        Ok(v) => v,
        Err(e) => {
            let mut m = "NAKRU: reconstruction failed: ".to_owned();
            m.append(e.as_str());
            return Err(KupruError::Crypto(m));
        },
    };
    if recovered.len() != 32 {
        return Err(
            KupruError::Crypto(
                "NAKRU: reconstructed key has the wrong length -- shares may be corrupt or from an unrelated split".to_owned(),
            ),
        );
    }
    SealKeyPair::from_bytes(recovered.as_slice())
}

/// The layers of an architect passport: the subject with linguistic
/// trust 7 in `realm`, and architect scopes.
pub fn architect_layers(
    realm: &str,
    subject_kaki: [u8; 16],
    subject_name: AkkadianName,
    linguistic_proof: LinguisticProof,
) -> (layers: (NaruLayer, IshtarLayer))
    ensures
        layers.0.subject_kaki == subject_kaki,
        layers.0.akkadian_name == subject_name,
        layers.0.linguistic_proof == linguistic_proof,
        layers.0.realm@ == realm@,
        layers.0.mudu_score == 7,
        layers.1.privilege_level == 7,
        layers.1.isretu_scopes@.len() == 5,
        layers.1.isretu_scopes@[0]@ == realm@ + ":*"@,
{
    let naru = NaruLayer {
        subject_kaki,
        akkadian_name: subject_name,
        linguistic_proof,
        realm: realm.to_owned(),
        mudu_score: 7,
    };
    (naru, IshtarLayer::architect(realm))
}

} // verus!
