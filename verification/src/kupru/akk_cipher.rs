//! AkkadianCipher — ChaCha20-Poly1305 sealing with a versioned layout:
//! the version byte, the 12-byte nonce, then the ciphertext and its tag.

use vstd::prelude::*;
use vstd::slice::slice_subrange;
use crate::text::{hex_byte, hex_encode, hex_of, push_hex_byte};
use crate::kupru::akkadian_root::array32;
use crate::kupru::canonical::extend_bytes;
use crate::kupru::error::{KupruError, KupruResult};
use crate::kupru::primitives::{chacha_decrypt, chacha_encrypt, chacha_opened_of, chacha_sealed_of, random_bytes};

verus! {

/// The version byte every sealed payload starts with.
pub const CIPHER_VERSION: u8 = 0x01;

/// The shortest sealed payload: version, nonce and tag.
pub const SEALED_MIN_LEN: usize = 29;

/// A 256-bit ChaCha20-Poly1305 key.
#[derive(Debug)]
pub struct AkkadianCipher {
    key: [u8; 32],
}

/// The layout of a sealed payload under a given nonce.
pub open spec fn sealed_form(key: Seq<u8>, nonce: Seq<u8>, plaintext: Seq<u8>, aad: Seq<u8>) -> Seq<u8> {
    seq![CIPHER_VERSION] + nonce + chacha_sealed_of(key, nonce, plaintext, aad)
}

/// `sealed` is a sealing of `plaintext` with `aad` under `key`: the
/// layout under some 12-byte nonce, whose ciphertext opens to the
/// plaintext and carries a 16-byte tag.
pub open spec fn sealed_by(key: Seq<u8>, sealed: Seq<u8>, plaintext: Seq<u8>, aad: Seq<u8>) -> bool {
    exists|nonce: Seq<u8>|
        {
            &&& nonce.len() == 12
            &&& #[trigger] sealed_form(key, nonce, plaintext, aad) == sealed
            &&& chacha_opened_of(key, nonce, chacha_sealed_of(key, nonce, plaintext, aad), aad) == Some(
                plaintext,
            )
            &&& chacha_sealed_of(key, nonce, plaintext, aad).len() == plaintext.len() + 16
        }
}

/// The plaintext `open` recovers: for a long enough payload of the known
/// version, what ChaCha20-Poly1305 opens of the ciphertext under the
/// stored nonce.
pub open spec fn opened_plaintext(key: Seq<u8>, sealed: Seq<u8>, aad: Seq<u8>) -> Option<Seq<u8>> {
    if sealed.len() >= SEALED_MIN_LEN && sealed[0] == CIPHER_VERSION {
        chacha_opened_of(key, sealed.subrange(1, 13), sealed.subrange(13, sealed.len() as int), aad)
    } else {
        None
    }
}

/// Copies 12 bytes into an array.
fn array12(v: &[u8]) -> (a: [u8; 12])
    requires
        v@.len() == 12,
    ensures
        a@ == v@,
{
    let mut a = [0u8; 12];
    let mut i: usize = 0;
    while i < 12
        invariant
            v@.len() == 12,
            0 <= i <= 12,
            a@.len() == 12,
            forall|j: int| 0 <= j < i ==> a@[j] == v@[j],
        decreases 12 - i,
    {
        a[i] = v[i];
        i = i + 1;
    }
    assert(a@ =~= v@);
    a
}

impl AkkadianCipher {
    /// The key.
    pub closed spec fn key_of(&self) -> Seq<u8> {
        self.key@
    }

    /// A cipher from exactly 32 key bytes.
    pub fn from_key_bytes(key: &[u8]) -> (r: KupruResult<Self>)
        ensures
            key@.len() != 32 ==> (r matches Err(KupruError::InvalidInput(m)) && m@
                == "LEMNĪ: cipher key must be 32 bytes"@),
            key@.len() == 32 ==> (r matches Ok(c) && c.key_of() == key@),
    {
        if key.len() != 32 {
            return Err(KupruError::InvalidInput("LEMNĪ: cipher key must be 32 bytes".to_owned()));
        }
        Ok(AkkadianCipher { key: array32(key) })
    }

    /// A cipher with a fresh random key. Nothing is promised of the key.
    pub fn generate() -> (r: KupruResult<Self>)
        ensures
            r is Ok,
    {
        let kv = random_bytes(32);
        Ok(AkkadianCipher { key: array32(kv.as_slice()) })
    }

    /// Seals `plaintext` with `aad` under a fresh random nonce: the
    /// version byte, the nonce, then the ciphertext and tag. Only a
    /// plaintext of 2^32-1 or more 64-byte blocks is refused.
    pub fn seal(&self, plaintext: &[u8], aad: &[u8]) -> (r: KupruResult<Vec<u8>>)
        ensures
            r is Ok <==> plaintext@.len() / 64 < 0xFFFF_FFFF,
            r matches Ok(s) ==> sealed_by(self.key_of(), s@, plaintext@, aad@),
            r matches Err(e) ==> (e matches KupruError::Crypto(m) && m@
                == "LEMNĪ: encrypt failed: aead::Error"@),
    {
        let nv = random_bytes(12);
        let nonce = array12(nv.as_slice());
        match chacha_encrypt(&self.key, &nonce, plaintext, aad) {
            Some(ct) => {
                let mut out: Vec<u8> = Vec::new();
                out.push(CIPHER_VERSION);
                extend_bytes(&mut out, &nonce);
                extend_bytes(&mut out, ct.as_slice());
                assert(out@ =~= sealed_form(self.key@, nonce@, plaintext@, aad@));
                Ok(out)
            },
            None => Err(KupruError::Crypto("LEMNĪ: encrypt failed: aead::Error".to_owned())),
        }
    }

    /// Opens a sealed payload: refuses one shorter than 29 bytes or of
    /// an unknown version, then authenticates and decrypts.
    pub fn open(&self, sealed: &[u8], aad: &[u8]) -> (r: KupruResult<Vec<u8>>)
        ensures
            sealed@.len() < SEALED_MIN_LEN ==> (r matches Err(KupruError::Crypto(m)) && m@
                == "LEMNĪ: sealed payload too short"@),
            (sealed@.len() >= SEALED_MIN_LEN && sealed@[0] != CIPHER_VERSION) ==> (r matches Err(
                KupruError::Crypto(m),
            ) && m@ == "LEMNĪ: unknown cipher version 0x"@ + hex_byte(sealed@[0])),
            (sealed@.len() >= SEALED_MIN_LEN && sealed@[0] == CIPHER_VERSION && opened_plaintext(
                self.key_of(),
                sealed@,
                aad@,
            ) is None) ==> (r matches Err(KupruError::Crypto(m)) && m@
                == "LEMNĪ: decrypt failed: aead::Error"@),
            r matches Ok(p) ==> opened_plaintext(self.key_of(), sealed@, aad@) == Some(p@),
            opened_plaintext(self.key_of(), sealed@, aad@) is Some ==> r is Ok,
    {
        if sealed.len() < SEALED_MIN_LEN {
            return Err(KupruError::Crypto("LEMNĪ: sealed payload too short".to_owned()));
        }
        let version = sealed[0];
        if version != CIPHER_VERSION {
            let mut m = "LEMNĪ: unknown cipher version 0x".to_owned();
            push_hex_byte(&mut m, version);
            return Err(KupruError::Crypto(m));
        }
        let nonce = array12(slice_subrange(sealed, 1, 13));
        let ct = slice_subrange(sealed, 13, sealed.len());
        match chacha_decrypt(&self.key, &nonce, ct, aad) {
            Some(p) => Ok(p),
            None => Err(KupruError::Crypto("LEMNĪ: decrypt failed: aead::Error".to_owned())),
        }
    }
}

/// Opening undoes sealing: whatever `seal` returned under a key opens,
/// under that key and the same associated data, to the plaintext.
pub proof fn law_open_undoes_seal(key: Seq<u8>, sealed: Seq<u8>, plaintext: Seq<u8>, aad: Seq<u8>)
    requires
        sealed_by(key, sealed, plaintext, aad),
    ensures
        opened_plaintext(key, sealed, aad) == Some(plaintext),
{
    let nonce = choose|nonce: Seq<u8>|
        {
            &&& nonce.len() == 12
            &&& #[trigger] sealed_form(key, nonce, plaintext, aad) == sealed
            &&& chacha_opened_of(key, nonce, chacha_sealed_of(key, nonce, plaintext, aad), aad) == Some(
                plaintext,
            )
            &&& chacha_sealed_of(key, nonce, plaintext, aad).len() == plaintext.len() + 16
        };
    let ct = chacha_sealed_of(key, nonce, plaintext, aad);
    assert(sealed.subrange(1, 13) =~= nonce);
    assert(sealed.subrange(13, sealed.len() as int) =~= ct);
}

/// A sealed payload as a transport envelope, its parts in hexadecimal.
#[derive(Debug, Clone)]
pub struct CipherEnvelope {
    pub version: u8,
    pub nonce_hex: String,
    pub ct_hex: String,
    pub aad_hex: String,
}

impl CipherEnvelope {
    /// The envelope of a sealed payload of at least 13 bytes.
    pub fn from_sealed(sealed: &[u8], aad: &[u8]) -> (r: KupruResult<Self>)
        ensures
            sealed@.len() < 13 ==> (r matches Err(KupruError::Crypto(m)) && m@
                == "LEMNĪ: sealed too short for envelope"@),
            sealed@.len() >= 13 ==> (r matches Ok(e) && e.version == sealed@[0] && e.nonce_hex@
                == hex_of(sealed@.subrange(1, 13)) && e.ct_hex@ == hex_of(
                sealed@.subrange(13, sealed@.len() as int),
            ) && e.aad_hex@ == hex_of(aad@)),
    {
        if sealed.len() < 13 {
            return Err(KupruError::Crypto("LEMNĪ: sealed too short for envelope".to_owned()));
        }
        Ok(CipherEnvelope {
            version: sealed[0],
            nonce_hex: hex_encode(slice_subrange(sealed, 1, 13)),
            ct_hex: hex_encode(slice_subrange(sealed, 13, sealed.len())),
            aad_hex: hex_encode(aad),
        })
    }
}

/// A sealed payload split into version, nonce and ciphertext.
#[derive(Debug, Clone)]
pub struct CipherText {
    pub version: u8,
    pub nonce: [u8; 12],
    pub data: Vec<u8>,
}

/// The bytes of a split payload, back in sealed layout.
pub open spec fn cipher_text_bytes(c: CipherText) -> Seq<u8> {
    seq![c.version] + c.nonce@ + c.data@
}

impl CipherText {
    /// Splits a sealed payload of at least 29 bytes.
    pub fn from_sealed(sealed: &[u8]) -> (r: KupruResult<Self>)
        ensures
            sealed@.len() < SEALED_MIN_LEN ==> (r matches Err(KupruError::Crypto(m)) && m@
                == "LEMNĪ: sealed too short"@),
            sealed@.len() >= SEALED_MIN_LEN ==> (r matches Ok(c) && c.version == sealed@[0] && c.nonce@
                == sealed@.subrange(1, 13) && c.data@ == sealed@.subrange(13, sealed@.len() as int)),
    {
        if sealed.len() < SEALED_MIN_LEN {
            return Err(KupruError::Crypto("LEMNĪ: sealed too short".to_owned()));
        }
        let nonce = array12(slice_subrange(sealed, 1, 13));
        let rest = slice_subrange(sealed, 13, sealed.len());
        let mut data: Vec<u8> = Vec::new();
        extend_bytes(&mut data, rest);
        Ok(CipherText { version: sealed[0], nonce, data })
    }

    /// The sealed layout: version, nonce, ciphertext.
    pub fn to_bytes(&self) -> (b: Vec<u8>)
        ensures
            b@ == cipher_text_bytes(*self),
    {
        let mut out: Vec<u8> = Vec::new();
        out.push(self.version);
        extend_bytes(&mut out, &self.nonce);
        extend_bytes(&mut out, self.data.as_slice());
        assert(out@ =~= cipher_text_bytes(*self));
        out
    }
}

/// Splitting a sealed payload and joining it again gives it back.
pub proof fn law_cipher_text_round_trip(sealed: Seq<u8>, c: CipherText)
    requires
        sealed.len() >= SEALED_MIN_LEN,
        c.version == sealed[0],
        c.nonce@ == sealed.subrange(1, 13),
        c.data@ == sealed.subrange(13, sealed.len() as int),
    ensures
        cipher_text_bytes(c) == sealed,
{
    assert(cipher_text_bytes(c) =~= sealed);
}

/// A 12-byte ChaCha20 nonce.
#[derive(Debug, Clone, Copy)]
pub struct SovereignNonce(pub [u8; 12]);

impl SovereignNonce {
    /// A fresh random nonce. Nothing is promised of its bytes.
    pub fn generate() -> (n: Self) {
        let v = random_bytes(12);
        SovereignNonce(array12(v.as_slice()))
    }
}

/// A cipher under the all-zero key (for development; production code
/// supplies its own key).
pub fn default_cipher() -> (r: KupruResult<AkkadianCipher>)
    ensures
        r matches Ok(c) && c.key_of() == Seq::new(32, |i: int| 0u8),
{
    let zero = [0u8; 32];
    let r = AkkadianCipher::from_key_bytes(&zero);
    assert(zero@ =~= Seq::new(32, |i: int| 0u8));
    r
}

} // verus!
