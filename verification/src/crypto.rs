//! The encrypted-payload envelope: a fixed-size nonce followed by the
//! ciphertext.  Serializing and parsing the envelope is byte logic the
//! library owns; the ciphers themselves stay outside it.

use vstd::prelude::*;

verus! {

/// Size of an encryption nonce in bytes.
pub const NONCE_SIZE: usize = 12;

/// Size of a symmetric encryption key in bytes.
pub const KEY_SIZE: usize = 32;

/// Size of an X25519 public key in bytes.
pub const X25519_KEY_SIZE: usize = 32;

/// Maximum size of a compressed or encrypted chunk in bytes.
pub const MAX_CHUNK_SIZE: usize = 1048576;

/// What a derived key is for; each purpose gets its own derivation.
#[derive(Debug, Clone, Copy, PartialEq, Eq, Structural)]
pub enum KeyContext {
    FileEncryption,
    MessageEncryption,
    SessionKey,
    AuthToken,
}

/// Why parsing an encrypted envelope failed.
#[derive(Debug, Clone, Copy, PartialEq, Eq, Structural)]
pub enum CryptoError {
    /// The data is shorter than a nonce, so no envelope fits in it.
    DataTooShort,
}

/// An encrypted payload: the nonce it was sealed with and the
/// ciphertext.  Whether the plaintext was compressed before sealing
/// travels in the surrounding message, not in the envelope, so the
/// envelope serializes and parses without loss.
#[derive(Debug, Clone)]
pub struct EncryptedData {
    pub nonce: Vec<u8>,
    pub ciphertext: Vec<u8>,
}

impl EncryptedData {
    /// The nonce has exactly its fixed size.
    pub open spec fn wf(&self) -> bool {
        self.nonce@.len() == NONCE_SIZE
    }

    /// Total size of the serialized envelope: nonce plus ciphertext.
    pub fn size(&self) -> (r: usize)
        requires
            self.wf(),
            self.ciphertext@.len() + NONCE_SIZE <= usize::MAX,
        ensures
            r == NONCE_SIZE + self.ciphertext@.len(),
    {
        NONCE_SIZE + self.ciphertext.len()
    }

    /// Serialize for transmission: the nonce's bytes, then the
    /// ciphertext's.
    pub fn to_bytes(&self) -> (r: Vec<u8>)
        requires
            self.wf(),
            self.ciphertext@.len() + NONCE_SIZE <= usize::MAX,
        ensures
            r@ == self.nonce@ + self.ciphertext@,
    {
        let mut out: Vec<u8> = Vec::new();
        let mut k: usize = 0;
        while k < self.nonce.len()
            invariant
                k <= self.nonce@.len(),
                out@ == self.nonce@.take(k as int),
            decreases self.nonce@.len() - k,
        {
            out.push(self.nonce[k]);
            proof {
                assert(out@ =~= self.nonce@.take(k + 1 as int));
            }
            k = k + 1;
        }
        proof {
            assert(self.nonce@.take(self.nonce@.len() as int) =~= self.nonce@);
        }
        let mut k: usize = 0;
        while k < self.ciphertext.len()
            invariant
                k <= self.ciphertext@.len(),
                out@ == self.nonce@ + self.ciphertext@.take(k as int),
            decreases self.ciphertext@.len() - k,
        {
            out.push(self.ciphertext[k]);
            proof {
                assert(out@ =~= self.nonce@ + self.ciphertext@.take(k + 1 as int));
            }
            k = k + 1;
        }
        proof {
            assert(self.ciphertext@.take(self.ciphertext@.len() as int) =~= self.ciphertext@);
        }
        out
    }

    /// Parse a received envelope: the first `NONCE_SIZE` bytes are the
    /// nonce, the rest the ciphertext.  Succeeds exactly when the data
    /// holds at least a nonce.
    pub fn from_bytes(data: &Vec<u8>) -> (r: Result<EncryptedData, CryptoError>)
        ensures
            match r {
                Ok(e) => {
                    &&& data@.len() >= NONCE_SIZE
                    &&& e.wf()
                    &&& e.nonce@ == data@.take(NONCE_SIZE as int)
                    &&& e.ciphertext@ == data@.skip(NONCE_SIZE as int)
                },
                Err(CryptoError::DataTooShort) => data@.len() < NONCE_SIZE,
            },
    {
        if data.len() < NONCE_SIZE {
            return Err(CryptoError::DataTooShort);
        }
        let mut nonce: Vec<u8> = Vec::new();
        let mut k: usize = 0;
        while k < NONCE_SIZE
            invariant
                k <= NONCE_SIZE,
                data@.len() >= NONCE_SIZE,
                nonce@ == data@.take(k as int),
            decreases NONCE_SIZE - k,
        {
            nonce.push(data[k]);
            proof {
                assert(nonce@ =~= data@.take(k + 1 as int));
            }
            k = k + 1;
        }
        let mut ciphertext: Vec<u8> = Vec::new();
        let mut k: usize = NONCE_SIZE;
        while k < data.len()
            invariant
                NONCE_SIZE <= k <= data@.len(),
                ciphertext@ == data@.subrange(NONCE_SIZE as int, k as int),
            decreases data@.len() - k,
        {
            ciphertext.push(data[k]);
            proof {
                assert(ciphertext@ =~= data@.subrange(NONCE_SIZE as int, k + 1 as int));
            }
            k = k + 1;
        }
        proof {
            assert(ciphertext@ =~= data@.skip(NONCE_SIZE as int));
        }
        Ok(EncryptedData { nonce, ciphertext })
    }
}

/// Parsing a serialized envelope gives back exactly the envelope it
/// was built from: of `nonce + ciphertext`, the first `NONCE_SIZE`
/// bytes are the nonce and the rest the ciphertext.
pub proof fn lemma_envelope_round_trip(e: EncryptedData)
    requires
        e.wf(),
    ensures
        (e.nonce@ + e.ciphertext@).len() >= NONCE_SIZE,
        (e.nonce@ + e.ciphertext@).take(NONCE_SIZE as int) == e.nonce@,
        (e.nonce@ + e.ciphertext@).skip(NONCE_SIZE as int) == e.ciphertext@,
{
    assert((e.nonce@ + e.ciphertext@).take(NONCE_SIZE as int) =~= e.nonce@);
    assert((e.nonce@ + e.ciphertext@).skip(NONCE_SIZE as int) =~= e.ciphertext@);
}

/// Key-exchange material for opening a secure channel: the sender's
/// public key and a sealed challenge.
#[derive(Debug, Clone)]
pub struct KeyExchange {
    pub public_key: Vec<u8>,
    pub encrypted_challenge: EncryptedData,
}

impl KeyExchange {
    /// The public key has exactly the X25519 size, and the challenge
    /// is a well-formed envelope.
    pub open spec fn wf(&self) -> bool {
        &&& self.public_key@.len() == X25519_KEY_SIZE
        &&& self.encrypted_challenge.wf()
    }
}

} // verus!
