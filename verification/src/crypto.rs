//! Packet encryption for the voice UDP stream. Two AEAD modes are
//! supported, chosen by the server-returned mode string; in both, the
//! RTP header is the additional authenticated data, the Opus payload is
//! the plaintext, and the nonce is the 32-bit packet counter big-endian
//! followed by zeros. The transmitted body is the ciphertext (with its
//! 16-byte tag) followed by the 4-byte big-endian counter.

use aes_gcm::aead::{Aead, KeyInit, Payload};
use vstd::prelude::*;

use crate::bytes::{lemma_u32_be_round_trip, push_u32_be, spec_u32_be, u32_from_be_bytes};

verus! {

/// Name of the AES-256-GCM mode on the wire.
pub open spec fn aes_mode_name() -> Seq<char> {
    "aead_aes256_gcm_rtpsize"@
}

/// Name of the XChaCha20-Poly1305 mode on the wire.
pub open spec fn xchacha_mode_name() -> Seq<char> {
    "aead_xchacha20_poly1305_rtpsize"@
}

/// What AES-256-GCM returns for a key, nonce, associated data and
/// message: ciphertext followed by the 16-byte tag.
pub uninterp spec fn aes_gcm_seal(key: Seq<u8>, nonce: Seq<u8>, aad: Seq<u8>, msg: Seq<u8>) -> Seq<
    u8,
>;

/// What XChaCha20-Poly1305 returns for a key, nonce, associated data and
/// message: ciphertext followed by the 16-byte tag.
pub uninterp spec fn xchacha_seal(key: Seq<u8>, nonce: Seq<u8>, aad: Seq<u8>, msg: Seq<u8>) -> Seq<
    u8,
>;

/// Relies on `aes_gcm::Aes256Gcm` through `aead::Aead::encrypt`: the result
/// is a function of key, nonce, associated data and message alone; it is the
/// ciphertext with a 16-byte postfix tag, and with both lengths far below the
/// algorithm's 2^36 limit the call cannot fail.
#[verifier::external_body]
fn aes_seal_call(key: &[u8], nonce: &[u8], aad: &[u8], msg: &[u8]) -> (r: Vec<u8>)
    requires
        key@.len() == 32,
        nonce@.len() == 12,
        aad@.len() <= 0x100000,
        msg@.len() <= 0x100000,
    ensures
        r@ == aes_gcm_seal(key@, nonce@, aad@, msg@),
        r@.len() == msg@.len() + 16,
{
    let cipher = aes_gcm::Aes256Gcm::new_from_slice(key).unwrap();
    cipher.encrypt(aes_gcm::Nonce::from_slice(nonce), Payload { msg, aad }).unwrap()
}

/// Relies on `aes_gcm::Aes256Gcm` through `aead::Aead::decrypt`: decryption
/// inverts encryption under the same key, nonce and associated data, for
/// any message within the same size bound the seal call admits.
#[verifier::external_body]
fn aes_open_call(key: &[u8], nonce: &[u8], aad: &[u8], ct: &[u8]) -> (r: Option<Vec<u8>>)
    requires
        key@.len() == 32,
        nonce@.len() == 12,
        aad@.len() <= 0x100000,
    ensures
        forall|m: Seq<u8>|
            ct@ == #[trigger] aes_gcm_seal(key@, nonce@, aad@, m) && m.len() <= 0x100000
                ==> r is Some && r->0@ == m,
{
    let cipher = aes_gcm::Aes256Gcm::new_from_slice(key).unwrap();
    cipher.decrypt(aes_gcm::Nonce::from_slice(nonce), Payload { msg: ct, aad }).ok()
}

/// Relies on `chacha20poly1305::XChaCha20Poly1305` through
/// `aead::Aead::encrypt`: the result is a function of key, nonce, associated
/// data and message alone; it is the ciphertext with a 16-byte postfix tag,
/// and for any message far below the algorithm's block-count limit the call
/// cannot fail.
#[verifier::external_body]
fn xchacha_seal_call(key: &[u8], nonce: &[u8], aad: &[u8], msg: &[u8]) -> (r: Vec<u8>)
    requires
        key@.len() == 32,
        nonce@.len() == 24,
        aad@.len() <= 0x100000,
        msg@.len() <= 0x100000,
    ensures
        r@ == xchacha_seal(key@, nonce@, aad@, msg@),
        r@.len() == msg@.len() + 16,
{
    let cipher = chacha20poly1305::XChaCha20Poly1305::new_from_slice(key).unwrap();
    cipher.encrypt(chacha20poly1305::XNonce::from_slice(nonce), Payload { msg, aad }).unwrap()
}

/// Relies on `chacha20poly1305::XChaCha20Poly1305` through
/// `aead::Aead::decrypt`: decryption inverts encryption under the same key,
/// nonce and associated data, for any message within the same size bound
/// the seal call admits.
#[verifier::external_body]
fn xchacha_open_call(key: &[u8], nonce: &[u8], aad: &[u8], ct: &[u8]) -> (r: Option<Vec<u8>>)
    requires
        key@.len() == 32,
        nonce@.len() == 24,
        aad@.len() <= 0x100000,
    ensures
        forall|m: Seq<u8>|
            ct@ == #[trigger] xchacha_seal(key@, nonce@, aad@, m) && m.len() <= 0x100000
                ==> r is Some && r->0@ == m,
{
    let cipher = chacha20poly1305::XChaCha20Poly1305::new_from_slice(key).unwrap();
    cipher.decrypt(chacha20poly1305::XNonce::from_slice(nonce), Payload { msg: ct, aad }).ok()
}

/// Errors of cipher construction.
#[derive(Debug, Clone, Copy, PartialEq, Eq, Structural)]
pub enum CryptoError {
    /// The secret key did not hold exactly 32 bytes.
    KeyLength,
    /// The server named a mode this library does not implement.
    UnsupportedMode,
}

/// A negotiated AEAD cipher: the mode chosen by the server together with
/// the 32-byte secret key.
pub enum CipherMode {
    /// AES-256-GCM with a 12-byte nonce.
    Aes { key: Vec<u8> },
    /// XChaCha20-Poly1305 with a 24-byte nonce.
    XChaCha { key: Vec<u8> },
}

impl CipherMode {
    /// The secret key bytes.
    pub open spec fn key_view(&self) -> Seq<u8> {
        match self {
            CipherMode::Aes { key } => key@,
            CipherMode::XChaCha { key } => key@,
        }
    }

    /// Nonce length of the mode.
    pub open spec fn spec_nonce_len(&self) -> int {
        match self {
            CipherMode::Aes { .. } => 12,
            CipherMode::XChaCha { .. } => 24,
        }
    }

    /// A well-formed cipher holds exactly 32 key bytes.
    pub open spec fn wf(&self) -> bool {
        self.key_view().len() == 32
    }

    /// The nonce for a packet counter: the counter big-endian, zero-padded
    /// to the mode's nonce length.
    pub open spec fn spec_nonce(&self, counter: u32) -> Seq<u8> {
        spec_u32_be(counter) + Seq::new((self.spec_nonce_len() - 4) as nat, |i: int| 0u8)
    }

    /// What the mode's AEAD returns for a nonce, associated data and message.
    pub open spec fn spec_seal(&self, nonce: Seq<u8>, aad: Seq<u8>, msg: Seq<u8>) -> Seq<u8> {
        match self {
            CipherMode::Aes { key } => aes_gcm_seal(key@, nonce, aad, msg),
            CipherMode::XChaCha { key } => xchacha_seal(key@, nonce, aad, msg),
        }
    }

    /// The encrypted packet body for a header, payload and counter:
    /// ciphertext and tag, then the counter big-endian.
    pub open spec fn spec_encrypt_packet(&self, header: Seq<u8>, msg: Seq<u8>, counter: u32) -> Seq<
        u8,
    > {
        self.spec_seal(self.spec_nonce(counter), header, msg) + spec_u32_be(counter)
    }

    /// Chooses the cipher from the server's secret key and mode string.
    /// Succeeds exactly when the key holds 32 bytes and the mode is one of
    /// the two implemented names; a bad key length is reported before an
    /// unknown mode.
    pub fn from_secret_and_mode(secret_key: &[u8], mode: &str) -> (r: Result<CipherMode, CryptoError>)
        ensures
            secret_key@.len() != 32 ==> r == Result::<CipherMode, CryptoError>::Err(
                CryptoError::KeyLength,
            ),
            secret_key@.len() == 32 && mode@ == aes_mode_name() ==> (r matches Ok(c)
                && c matches CipherMode::Aes { key } && key@ == secret_key@),
            secret_key@.len() == 32 && mode@ == xchacha_mode_name() ==> (r matches Ok(c)
                && c matches CipherMode::XChaCha { key } && key@ == secret_key@),
            secret_key@.len() == 32 && mode@ != aes_mode_name() && mode@ != xchacha_mode_name()
                ==> r == Result::<CipherMode, CryptoError>::Err(CryptoError::UnsupportedMode),
            r matches Ok(c) ==> c.wf(),
    {
        proof {
            reveal_strlit("aead_aes256_gcm_rtpsize");
            reveal_strlit("aead_xchacha20_poly1305_rtpsize");
            assert(aes_mode_name().len() == 23);
            assert(xchacha_mode_name().len() == 31);
        }
        if secret_key.len() != 32 {
            return Err(CryptoError::KeyLength);
        }
        let mut key: Vec<u8> = Vec::new();
        let mut i: usize = 0;
        while i < secret_key.len()
            invariant
                i <= secret_key@.len(),
                key@ == secret_key@.subrange(0, i as int),
            decreases secret_key@.len() - i,
        {
            key.push(secret_key[i]);
            assert(key@ =~= secret_key@.subrange(0, i + 1));
            i = i + 1;
        }
        assert(key@ =~= secret_key@);
        let m = mode.to_owned();
        if m == "aead_aes256_gcm_rtpsize".to_owned() {
            Ok(CipherMode::Aes { key })
        } else if m == "aead_xchacha20_poly1305_rtpsize".to_owned() {
            Ok(CipherMode::XChaCha { key })
        } else {
            Err(CryptoError::UnsupportedMode)
        }
    }

    /// Encrypts one packet: seals the payload under the counter's nonce
    /// with the RTP header as associated data, and appends the counter
    /// big-endian. The body is the sealed bytes plus 20.
    pub fn encrypt_packet(&self, rtp_header: &[u8], opus_payload: &[u8], counter: u32) -> (r: Vec<
        u8,
    >)
        requires
            self.wf(),
            rtp_header@.len() <= 0x100000,
            opus_payload@.len() <= 0x100000,
        ensures
            r@ == self.spec_encrypt_packet(rtp_header@, opus_payload@, counter),
            r@.len() == opus_payload@.len() + 20,
    {
        let nonce = self.build_nonce(counter);
        let mut sealed = match self {
            CipherMode::Aes { key } => aes_seal_call(
                key.as_slice(),
                nonce.as_slice(),
                rtp_header,
                opus_payload,
            ),
            CipherMode::XChaCha { key } => xchacha_seal_call(
                key.as_slice(),
                nonce.as_slice(),
                rtp_header,
                opus_payload,
            ),
        };
        push_u32_be(&mut sealed, counter);
        sealed
    }

    /// Builds the nonce for a counter: the counter big-endian, zero-padded
    /// to the mode's nonce length.
    fn build_nonce(&self, counter: u32) -> (n: Vec<u8>)
        ensures
            n@ == self.spec_nonce(counter),
            n@.len() == self.spec_nonce_len(),
    {
        let pad: usize = match self {
            CipherMode::Aes { .. } => 8,
            CipherMode::XChaCha { .. } => 20,
        };
        let mut n: Vec<u8> = Vec::new();
        push_u32_be(&mut n, counter);
        let mut i: usize = 0;
        while i < pad
            invariant
                i <= pad,
                n@ == spec_u32_be(counter) + Seq::new(i as nat, |j: int| 0u8),
            decreases pad - i,
        {
            n.push(0);
            assert(n@ =~= spec_u32_be(counter) + Seq::new((i + 1) as nat, |j: int| 0u8));
            i = i + 1;
        }
        assert(n@ =~= self.spec_nonce(counter));
        n
    }

    /// The receiving side of [`CipherMode::encrypt_packet`]: splits the
    /// trailing big-endian counter off the body, rebuilds the nonce, and
    /// opens the ciphertext with the RTP header as associated data. Any
    /// body produced by `encrypt_packet` under the same cipher and header
    /// — so within its size bounds — comes back as exactly the payload it
    /// was built from.
    pub fn decrypt_packet(&self, rtp_header: &[u8], body: &[u8]) -> (r: Option<(Vec<u8>, u32)>)
        requires
            self.wf(),
            rtp_header@.len() <= 0x100000,
        ensures
            forall|m: Seq<u8>, c: u32|
                body@ == #[trigger] self.spec_encrypt_packet(rtp_header@, m, c) && body@.len()
                    >= 20 && m.len() <= 0x100000 ==> (r matches Some(p) && p.0@ == m && p.1 == c),
    {
        if body.len() < 20 {
            return None;
        }
        let split: usize = body.len() - 4;
        let mut ct: Vec<u8> = Vec::new();
        let mut i: usize = 0;
        while i < split
            invariant
                i <= split,
                split <= body@.len(),
                ct@ == body@.subrange(0, i as int),
            decreases split - i,
        {
            ct.push(body[i]);
            assert(ct@ =~= body@.subrange(0, i + 1));
            i = i + 1;
        }
        let counter = u32_from_be_bytes(&[body[split], body[split + 1], body[split + 2], body[split
            + 3]]);
        let nonce = self.build_nonce(counter);
        let opened = match self {
            CipherMode::Aes { key } => aes_open_call(
                key.as_slice(),
                nonce.as_slice(),
                rtp_header,
                ct.as_slice(),
            ),
            CipherMode::XChaCha { key } => xchacha_open_call(
                key.as_slice(),
                nonce.as_slice(),
                rtp_header,
                ct.as_slice(),
            ),
        };
        let r = match opened {
            Option::Some(m) => Option::Some((m, counter)),
            Option::None => Option::None,
        };
        proof {
            assert forall|m: Seq<u8>, c: u32|
                body@ == #[trigger] self.spec_encrypt_packet(rtp_header@, m, c) && body@.len()
                    >= 20 && m.len() <= 0x100000 implies (r matches Some(p) && p.0@ == m && p.1
                == c) by {
                let sealed = self.spec_seal(self.spec_nonce(c), rtp_header@, m);
                assert(body@ == sealed + spec_u32_be(c));
                assert(body@.len() == sealed.len() + 4);
                assert(body@[split as int] == spec_u32_be(c)[0]);
                assert(body@[split + 1] == spec_u32_be(c)[1]);
                assert(body@[split + 2] == spec_u32_be(c)[2]);
                assert(body@[split + 3] == spec_u32_be(c)[3]);
                lemma_u32_be_round_trip(c);
                assert(counter == c);
                assert(ct@ =~= sealed);
            };
        }
        r
    }
}

} // verus!
