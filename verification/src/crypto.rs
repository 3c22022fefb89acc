//! Cryptographic capability of the session layer: random bytes, HMAC-SHA256,
//! HKDF, a placeholder symmetric cipher, base64 and SHA-256.
//!
//! The primitives themselves come from outside crates and are consumed as an
//! opaque capability; the key-derivation schedule and the cipher stub are the
//! library's own logic and are verified.

use vstd::prelude::*;

use crate::error::WhatsAppError;
use vstd::string::StringExecFns;
use hmac::Mac;
use sha2::Digest;
use base64::Engine;

verus! {

/// The digest that HMAC-SHA256 computes for a key and a data sequence.
/// It is a function of the two arguments alone.
pub uninterp spec fn hmac_sha256_of(key: Seq<u8>, data: Seq<u8>) -> Seq<u8>;

/// The digest that SHA-256 computes for a data sequence.
pub uninterp spec fn sha256_of(data: Seq<u8>) -> Seq<u8>;

/// The standard base64 rendering (with padding) of a byte sequence.
pub uninterp spec fn base64_of(data: Seq<u8>) -> Seq<char>;

/// Key pair for encryption.
pub struct KeyPair {
    pub private: Vec<u8>,
    pub public: Vec<u8>,
}

/// Cryptographic functions of the session layer.
pub struct Crypto;

/// One block of the HKDF expand phase: T(0) is empty and
/// T(n) = HMAC-SHA256(prk, T(n-1) || info || n).
pub open spec fn hkdf_block(prk: Seq<u8>, info: Seq<u8>, n: nat) -> Seq<u8>
    decreases n,
{
    if n == 0 {
        Seq::empty()
    } else {
        hmac_sha256_of(prk, hkdf_block(prk, info, (n - 1) as nat) + info + seq![n as u8])
    }
}

/// The concatenation T(1) || ... || T(k) of the first k HKDF blocks.
pub open spec fn hkdf_stream(prk: Seq<u8>, info: Seq<u8>, k: nat) -> Seq<u8>
    decreases k,
{
    if k == 0 {
        Seq::empty()
    } else {
        hkdf_stream(prk, info, (k - 1) as nat) + hkdf_block(prk, info, k)
    }
}

/// The zero salt used by the extract phase.
pub open spec fn zero_salt() -> Seq<u8> {
    Seq::new(32, |i: int| 0u8)
}

/// The HKDF output: extract a pseudorandom key from the master secret with
/// a 32-byte zero salt, expand it against `info`, and keep `length` bytes.
pub open spec fn spec_hkdf(master: Seq<u8>, info: Seq<u8>, length: nat) -> Seq<u8> {
    let prk = hmac_sha256_of(zero_salt(), master);
    hkdf_stream(prk, info, ((length + 31) / 32) as nat).take(length as int)
}

/// The placeholder cipher: each data byte XOR-ed with the key and IV bytes
/// at the same position, both repeated cyclically.
pub open spec fn spec_xor_cipher(key: Seq<u8>, iv: Seq<u8>, data: Seq<u8>) -> Seq<u8> {
    Seq::new(data.len(), |i: int| data[i] ^ key[i % key.len() as int] ^ iv[i % iv.len() as int])
}

/// Law: the placeholder cipher inverts itself. Encrypting under a key and
/// IV and decrypting under the same pair — decryption applies the same
/// XOR stream — yields the original data.
pub proof fn lemma_xor_cipher_round_trip(key: Seq<u8>, iv: Seq<u8>, data: Seq<u8>)
    requires
        key.len() > 0,
        iv.len() > 0,
    ensures
        spec_xor_cipher(key, iv, spec_xor_cipher(key, iv, data)) == data,
{
    let once = spec_xor_cipher(key, iv, data);
    assert forall|j: int| 0 <= j < data.len() implies spec_xor_cipher(key, iv, once)[j]
        == data[j] by {
        let k = key[j % key.len() as int];
        let v = iv[j % iv.len() as int];
        let b = data[j];
        assert(((b ^ k ^ v) ^ k) ^ v == b) by (bit_vector);
    }
    assert(spec_xor_cipher(key, iv, once) =~= data);
}

impl Crypto {
    /// Generate random bytes.
    ///
    /// Relies on rand::Rng::fill over rand::thread_rng: fills the buffer in
    /// place, so the length is exactly the one asked for. The values depend
    /// on the generator's state, so nothing is said of them.
    #[verifier::external_body]
    pub fn random_bytes(length: usize) -> (r: Vec<u8>)
        ensures
            r@.len() == length,
    {
        let mut rng = rand::thread_rng();
        let mut bytes = vec![0u8; length];
        rand::Rng::fill(&mut rng, &mut bytes[..]);
        bytes
    }

    /// Relies on hmac::Hmac<sha2::Sha256>: new_from_slice accepts keys of
    /// every length (its HMAC impl has no error path), and the finalized
    /// digest is 32 bytes, a function of key and data alone.
    #[verifier::external_body]
    fn hmac_sha256_raw(key: &[u8], data: &[u8]) -> (r: Vec<u8>)
        ensures
            r@ == hmac_sha256_of(key@, data@),
            r@.len() == 32,
    {
        let mut mac = hmac::Hmac::<sha2::Sha256>::new_from_slice(key)
            .expect("HMAC accepts keys of any length");
        mac.update(data);
        mac.finalize().into_bytes().to_vec()
    }

    /// HMAC-SHA256 signature of `data` under `key`. Never fails.
    pub fn hmac_sha256(key: &[u8], data: &[u8]) -> (r: Result<Vec<u8>, WhatsAppError>)
        ensures
            r matches Ok(v) && v@ == hmac_sha256_of(key@, data@) && v@.len() == 32,
    {
        Ok(Self::hmac_sha256_raw(key, data))
    }

    /// Generate a key pair for encryption: 32 random bytes of private and
    /// of public material. A placeholder for a real curve key pair.
    pub fn generate_key_pair() -> (r: Result<KeyPair, WhatsAppError>)
        ensures
            r matches Ok(kp) && kp.private@.len() == 32 && kp.public@.len() == 32,
    {
        let private = Self::random_bytes(32);
        let public = Self::random_bytes(32);
        Ok(KeyPair { private, public })
    }

    /// HKDF (HMAC-based key derivation): extract with a zero salt, then
    /// expand until `length` bytes are available. The counter is one byte,
    /// so at most 254 blocks (8128 bytes) can be asked for.
    pub fn hkdf(master: &[u8], app_info: &[u8], length: usize) -> (r: Result<
        Vec<u8>,
        WhatsAppError,
    >)
        requires
            length <= 8128,
        ensures
            r matches Ok(v) && v@ == spec_hkdf(master@, app_info@, length as nat),
    {
        // Extract phase: zero salt.
        let mut salt: Vec<u8> = Vec::new();
        let mut z: usize = 0;
        while z < 32
            invariant
                z <= 32,
                salt@ =~= zero_salt().take(z as int),
            decreases 32 - z,
        {
            salt.push(0u8);
            z += 1;
        }
        assert(salt@ =~= zero_salt());
        let prk = Self::hmac_sha256_raw(salt.as_slice(), master);

        // Expand phase.
        let ghost prkv = prk@;
        let mut output: Vec<u8> = Vec::new();
        let mut t: Vec<u8> = Vec::new();
        let mut counter: u8 = 1;

        while output.len() < length
            invariant
                1 <= counter <= 255,
                prk@ == prkv,
                length <= 8128,
                t@ == hkdf_block(prkv, app_info@, (counter - 1) as nat),
                output@ == hkdf_stream(prkv, app_info@, (counter - 1) as nat),
                output@.len() == 32 * (counter - 1),
                counter == 1 || 32 * (counter - 2) < length,
            decreases length + 32 - output.len(),
        {
            let ghost out0 = output@;
            let mut input: Vec<u8> = Vec::new();
            let mut i: usize = 0;
            while i < t.len()
                invariant
                    i <= t.len(),
                    input@ =~= t@.take(i as int),
                decreases t.len() - i,
            {
                input.push(t[i]);
                i += 1;
            }
            assert(input@ =~= t@);
            let mut j: usize = 0;
            while j < app_info.len()
                invariant
                    j <= app_info@.len(),
                    input@ =~= t@ + app_info@.take(j as int),
                decreases app_info@.len() - j,
            {
                input.push(app_info[j]);
                j += 1;
            }
            input.push(counter);
            assert(input@ =~= hkdf_block(prkv, app_info@, (counter - 1) as nat) + app_info@
                + seq![counter]);

            t = Self::hmac_sha256_raw(prk.as_slice(), input.as_slice());
            assert(t@ == hkdf_block(prkv, app_info@, counter as nat));

            let mut k: usize = 0;
            while k < t.len()
                invariant
                    k <= t@.len(),
                    output@ =~= out0 + t@.take(k as int),
                decreases t@.len() - k,
            {
                output.push(t[k]);
                k += 1;
            }
            assert(output@ =~= hkdf_stream(prkv, app_info@, counter as nat));
            counter += 1;
        }

        proof {
            let k = (counter - 1) as int;
            assert(32 * k >= length);
            assert(k == 0 || 32 * (k - 1) < length);
            assert(k == ((length + 31) / 32) as int) by (nonlinear_arith)
                requires
                    32 * k >= length,
                    k == 0 || 32 * (k - 1) < length,
                    0 <= k,
                    0 <= length;
        }
        output.truncate(length);
        assert(output@ =~= spec_hkdf(master@, app_info@, length as nat));
        Ok(output)
    }

    /// The placeholder cipher standing in for AES-256-CBC: XOR with the key
    /// and IV repeated cyclically. Key and IV must be non-empty.
    pub fn aes_encrypt(key: &[u8], iv: &[u8], data: &[u8]) -> (r: Result<Vec<u8>, WhatsAppError>)
        requires
            key@.len() > 0,
            iv@.len() > 0,
        ensures
            r matches Ok(v) && v@ == spec_xor_cipher(key@, iv@, data@),
    {
        let mut output: Vec<u8> = Vec::with_capacity(data.len());
        let mut i: usize = 0;
        while i < data.len()
            invariant
                i <= data@.len(),
                key@.len() > 0,
                iv@.len() > 0,
                output@ =~= spec_xor_cipher(key@, iv@, data@).take(i as int),
            decreases data@.len() - i,
        {
            let key_byte = key[i % key.len()];
            let iv_byte = iv[i % iv.len()];
            output.push(data[i] ^ key_byte ^ iv_byte);
            i += 1;
        }
        assert(output@ =~= spec_xor_cipher(key@, iv@, data@));
        Ok(output)
    }

    /// Decrypt what `aes_encrypt` produced: XOR is its own inverse.
    pub fn aes_decrypt(key: &[u8], iv: &[u8], data: &[u8]) -> (r: Result<Vec<u8>, WhatsAppError>)
        requires
            key@.len() > 0,
            iv@.len() > 0,
        ensures
            r matches Ok(v) && v@ == spec_xor_cipher(key@, iv@, data@),
    {
        Self::aes_encrypt(key, iv, data)
    }

    /// Base64 encode. Relies on
    /// base64::engine::general_purpose::STANDARD.encode: the standard
    /// alphabet with padding, four output characters for every three input
    /// bytes, a function of the input alone.
    #[verifier::external_body]
    pub fn base64_encode(data: &[u8]) -> (r: String)
        ensures
            r@ == base64_of(data@),
            r@.len() == 4 * ((data@.len() + 2) / 3),
    {
        base64::engine::general_purpose::STANDARD.encode(data)
    }

    /// Relies on base64::engine::general_purpose::STANDARD.decode: the
    /// engine requires canonical padding and rejects non-zero trailing
    /// bits, so a decoded value re-encodes to exactly the input, and every
    /// canonical encoding decodes.
    #[verifier::external_body]
    fn base64_decode_raw(data: &str) -> (r: Result<Vec<u8>, String>)
        ensures
            r matches Ok(v) ==> data@ == base64_of(v@),
            (exists|d: Seq<u8>| data@ == base64_of(d)) ==> r is Ok,
    {
        base64::engine::general_purpose::STANDARD.decode(data).map_err(|e| e.to_string())
    }

    /// Base64 decode. Returns the bytes whose standard encoding is the
    /// input, and a crypto error when the input is no such encoding.
    pub fn base64_decode(data: &str) -> (r: Result<Vec<u8>, WhatsAppError>)
        ensures
            r matches Ok(v) ==> data@ == base64_of(v@),
            (exists|d: Seq<u8>| data@ == base64_of(d)) ==> r is Ok,
            r is Err ==> (r matches Err(e) && e is CryptoError),
    {
        match Self::base64_decode_raw(data) {
            Ok(v) => Ok(v),
            Err(detail) => {
                let mut msg = "Base64 decode error: ".to_owned();
                msg.append(detail.as_str());
                Err(WhatsAppError::CryptoError(msg))
            },
        }
    }

    /// Calculate the SHA-256 hash. Relies on sha2::Sha256: the digest is
    /// 32 bytes and a function of the input alone.
    #[verifier::external_body]
    pub fn sha256(data: &[u8]) -> (r: Vec<u8>)
        ensures
            r@ == sha256_of(data@),
            r@.len() == 32,
    {
        let mut hasher = sha2::Sha256::new();
        hasher.update(data);
        hasher.finalize().to_vec()
    }
}

} // verus!
