//! Memo types, signing and encryption helpers
use aes::cipher::{FromBlockCipher, NewBlockCipher, StreamCipher};
use crate::bytes::append;
use crate::consts::{MEMO_MAC_DOMAIN_TAG, MEMO_OKM_SALT};
use crate::group::mul_mod;
use crate::kdf::{hkdf_sha512, hkdf_sha512_expand};
use crate::keys::{SubaddrSpendPrivate, SubaddrSpendPublic, SubaddrViewPrivate, SubaddrViewPublic};
use crate::ristretto::point_of;
use crate::ristretto_keys::{RistrettoPrivate, RistrettoPublic, RistrettoSecret};
use hmac::Mac;
use vstd::prelude::*;
use vstd::view::View as _;

verus! {

/// The byte at position `index` of the keystream of AES-256 in counter mode
/// under `key` and `nonce`.
pub uninterp spec fn aes256_ctr_keystream(key: Seq<u8>, nonce: Seq<u8>, index: nat) -> u8;

/// The sixty-four bytes of the HMAC with SHA-512 of `message` under `key`.
pub uninterp spec fn hmac_sha512(key: Seq<u8>, message: Seq<u8>) -> Seq<u8>;

/// `Aes256Ctr` of the aes crate, made by `FromBlockCipher::from_block_cipher`
/// from `Aes256::new`, then `StreamCipher::apply_keystream`: every byte of the
/// data is XORed with the byte of the keystream at its position.
#[verifier::external_body]
fn aes256_ctr_apply(key: &[u8; 32], nonce: &[u8; 16], data: &mut [u8; 66])
    ensures
        forall|i: int|
            0 <= i < 66 ==> #[trigger] final(data)@[i] == old(data)@[i] ^ aes256_ctr_keystream(
                key@,
                nonce@,
                i as nat,
            ),
{
    let block = aes::Aes256::new(generic_array::GenericArray::from_slice(key));
    let nonce = generic_array::GenericArray::from_slice(nonce);
    let mut cipher = aes::Aes256Ctr::from_block_cipher(block, nonce);
    cipher.apply_keystream(data);
}

/// `Hmac::<Sha512>` of the hmac crate: `Mac::new_from_slice`, `Mac::update`
/// and `Mac::finalize`: sixty-four bytes that depend on the key and the
/// message alone. A key of any length is accepted.
#[verifier::external_body]
fn hmac_sha512_of(key: &[u8], message: &[u8]) -> (mac: [u8; 64])
    ensures
        mac@ == hmac_sha512(key@, message@),
{
    let mut mac = hmac::Hmac::<sha2::Sha512>::new_from_slice(key).unwrap();
    mac.update(message);
    mac.finalize().into_bytes().into()
}

/// The keystream byte that a shared secret gives at `index`: the first
/// thirty-two of the forty-eight bytes derived from the secret are the key of
/// the cipher, the last sixteen its nonce.
pub open spec fn spec_memo_keystream(secret: Seq<u8>, index: nat) -> u8 {
    let okm = hkdf_sha512(MEMO_OKM_SALT@, secret, Seq::<u8>::empty(), 48);
    aes256_ctr_keystream(okm.subrange(0, 32), okm.subrange(32, 48), index)
}

/// The payload with the keystream of `secret` applied.
pub open spec fn spec_apply_keystream(secret: Seq<u8>, payload: Seq<u8>) -> Seq<u8> {
    Seq::new(payload.len(), |i: int| payload[i] ^ spec_memo_keystream(secret, i as nat))
}

/// Applying the keystream of one secret twice gives the payload back.
pub proof fn lemma_keystream_twice(secret: Seq<u8>, payload: Seq<u8>)
    ensures
        spec_apply_keystream(secret, spec_apply_keystream(secret, payload)) == payload,
{
    let once = spec_apply_keystream(secret, payload);
    let twice = spec_apply_keystream(secret, once);
    assert forall|i: int| 0 <= i < payload.len() implies twice[i] == payload[i] by {
        let k = spec_memo_keystream(secret, i as nat);
        let p = payload[i];
        assert((p ^ k) ^ k == p) by (bit_vector);
    }
    assert(twice =~= payload);
}

/// The secret that the holder of a private key shares with the holder of the
/// private key of a public key.
pub open spec fn spec_shared_secret(private_key: nat, public_key: nat) -> Seq<u8> {
    point_of(mul_mod(private_key, public_key))
}

/// KX using sender default subaddress spend private and receiver subaddress
/// view public to determine shared secret for memo signing / encryption
pub fn shared_secret(private_key: &RistrettoPrivate, public_key: &RistrettoPublic) -> (secret:
    RistrettoSecret)
    ensures
        secret@ == spec_shared_secret(private_key@, public_key@),
{
    private_key.key_exchange(public_key)
}

/// Apply AES256 keystream to the provided memo buffer
fn apply_keystream(shared_secret: &RistrettoSecret, buff: &mut [u8; 66])
    ensures
        final(buff)@ == spec_apply_keystream(shared_secret@, old(buff)@),
{
    // Use HKDF-SHA512 to produce an AES key and AES nonce
    // OKM is "output key material", see RFC HKDF for discussion of terms
    let info: Vec<u8> = Vec::new();
    let okm = hkdf_sha512_expand(
        MEMO_OKM_SALT.as_slice(),
        shared_secret.as_bytes().as_slice(),
        info.as_slice(),
        48,
    );
    let mut key = [0u8; 32];
    let mut nonce = [0u8; 16];
    let mut i: usize = 0;
    while i < 48
        invariant
            i <= 48,
            okm@.len() == 48,
            forall|k: int| 0 <= k < i && k < 32 ==> key@[k] == okm@[k],
            forall|k: int| 32 <= k < i ==> nonce@[k - 32] == okm@[k],
        decreases 48 - i,
    {
        if i < 32 {
            key[i] = okm[i];
        } else {
            nonce[i - 32] = okm[i];
        }
        i += 1;
    }
    assert(key@ =~= okm@.subrange(0, 32));
    assert(nonce@ =~= okm@.subrange(32, 48));
    assert(info@ =~= Seq::<u8>::empty());

    // Apply AES-256 in counter mode to the buffer
    aes256_ctr_apply(&key, &nonce, buff);
    assert(buff@ =~= spec_apply_keystream(shared_secret@, old(buff)@));
}

/// Cleartext memo payload container
#[derive(Clone, Copy, Debug)]
pub struct MemoPayloadCleartext(pub [u8; 66]);

/// Encrypted memo payload container
#[derive(Clone, Copy, Debug)]
pub struct MemoPayloadEncrypted(pub [u8; 66]);

impl MemoPayloadCleartext {
    /// Encrypt a cleartext memo payload
    pub fn encrypt(
        self,
        sender_default_spend_private: &SubaddrSpendPrivate,
        receiver_view_public: &SubaddrViewPublic,
    ) -> (encrypted: MemoPayloadEncrypted)
        ensures
            encrypted.0@ == spec_apply_keystream(
                spec_shared_secret(
                    sender_default_spend_private.inner()@,
                    receiver_view_public.inner()@,
                ),
                self.0@,
            ),
    {
        let mut payload = self.0;

        // Perform KX against receiver subaddress view pubic key
        let secret = shared_secret(
            sender_default_spend_private.as_ref(),
            receiver_view_public.as_ref(),
        );

        // Apply encryption
        apply_keystream(&secret, &mut payload);

        // Return encrypted object
        MemoPayloadEncrypted(payload)
    }
}

impl MemoPayloadEncrypted {
    /// Decrypt an encrypted memo payload
    pub fn decrypt(
        self,
        sender_default_spend_public: &SubaddrSpendPublic,
        receiver_view_private: &SubaddrViewPrivate,
    ) -> (cleartext: MemoPayloadCleartext)
        ensures
            cleartext.0@ == spec_apply_keystream(
                spec_shared_secret(
                    receiver_view_private.inner()@,
                    sender_default_spend_public.inner()@,
                ),
                self.0@,
            ),
    {
        let mut payload = self.0;

        // Perform KX against sender subaddress spend public key
        let secret = shared_secret(
            receiver_view_private.as_ref(),
            sender_default_spend_public.as_ref(),
        );

        // Apply decryption
        apply_keystream(&secret, &mut payload);

        // Return decrypted object
        MemoPayloadCleartext(payload)
    }
}

/// Decryption undoes encryption: the receiver, who holds the view private key
/// of the view public key that the sender encrypted to, and the spend public
/// key of the sender's spend private key, reads the payload that was written.
pub proof fn lemma_decrypt_undoes_encrypt(
    payload: Seq<u8>,
    sender_spend_private: nat,
    receiver_view_private: nat,
)
    ensures
        spec_apply_keystream(
            spec_shared_secret(receiver_view_private, sender_spend_private),
            spec_apply_keystream(
                spec_shared_secret(sender_spend_private, receiver_view_private),
                payload,
            ),
        ) == payload,
{
    assert(mul_mod(receiver_view_private, sender_spend_private) == mul_mod(
        sender_spend_private,
        receiver_view_private,
    )) by (nonlinear_arith);
    lemma_keystream_twice(spec_shared_secret(sender_spend_private, receiver_view_private), payload);
}

/// What the memo authentication code is computed over: the domain separator,
/// the encoding of the public key of the output, the kind of the memo and its
/// data.
pub open spec fn spec_hmac_input(tx_out_public_key: nat, kind: Seq<u8>, data: Seq<u8>) -> Seq<u8> {
    MEMO_MAC_DOMAIN_TAG@ + point_of(tx_out_public_key) + kind + data
}

/// The memo authentication code: the first sixteen bytes of the HMAC with
/// SHA-512 under the shared secret.
pub open spec fn spec_memo_hmac(
    secret: Seq<u8>,
    tx_out_public_key: nat,
    kind: Seq<u8>,
    data: Seq<u8>,
) -> Seq<u8> {
    hmac_sha512(secret, spec_hmac_input(tx_out_public_key, kind, data)).subrange(0, 16)
}

/// Memo HMAC container
#[derive(Clone, Copy, Debug)]
pub struct Hmac(pub [u8; 16]);

/// The authentication code of a memo under a shared secret.
fn compute_hmac(
    secret: &RistrettoSecret,
    tx_out_public_key: &RistrettoPublic,
    kind: [u8; 2],
    data: &[u8; 48],
) -> (hmac: Hmac)
    ensures
        hmac.0@ == spec_memo_hmac(secret@, tx_out_public_key@, kind@, data@),
{
    let mut message: Vec<u8> = Vec::new();
    append(&mut message, MEMO_MAC_DOMAIN_TAG.as_slice());
    let encoded = tx_out_public_key.to_bytes();
    append(&mut message, encoded.as_slice());
    append(&mut message, kind.as_slice());
    append(&mut message, data.as_slice());
    assert(message@ =~= spec_hmac_input(tx_out_public_key@, kind@, data@));
    let mac = hmac_sha512_of(secret.as_bytes().as_slice(), message.as_slice());
    let mut value = [0u8; 16];
    let mut i: usize = 0;
    while i < 16
        invariant
            i <= 16,
            forall|k: int| 0 <= k < i ==> value@[k] == mac@[k],
        decreases 16 - i,
    {
        value[i] = mac[i];
        i += 1;
    }
    assert(value@ =~= mac@.subrange(0, 16));
    Hmac(value)
}

impl Hmac {
    /// Compute HMAC for a given memo body
    pub fn build(
        kind: [u8; 2],
        data: &[u8; 48],
        tx_out_public_key: &RistrettoPublic,
        sender_default_spend_public: &SubaddrSpendPublic,
        receiver_view_private: &SubaddrViewPrivate,
    ) -> (r: Result<Hmac, ()>)
        ensures
            r is Ok,
            r.unwrap().0@ == spec_memo_hmac(
                spec_shared_secret(
                    receiver_view_private.inner()@,
                    sender_default_spend_public.inner()@,
                ),
                tx_out_public_key@,
                kind@,
                data@,
            ),
    {
        // Compute shared secret
        let secret = shared_secret(
            receiver_view_private.as_ref(),
            sender_default_spend_public.as_ref(),
        );

        // Compute HMAC for memo data
        Ok(compute_hmac(&secret, tx_out_public_key, kind, data))
    }

    /// Compute received HMAC for a given memo body
    pub fn check(
        kind: [u8; 2],
        data: &[u8; 48],
        tx_out_public_key: &RistrettoPublic,
        sender_default_spend_private: &SubaddrSpendPrivate,
        receiver_view_public: &SubaddrViewPublic,
    ) -> (r: Result<Hmac, ()>)
        ensures
            r is Ok,
            r.unwrap().0@ == spec_memo_hmac(
                spec_shared_secret(
                    sender_default_spend_private.inner()@,
                    receiver_view_public.inner()@,
                ),
                tx_out_public_key@,
                kind@,
                data@,
            ),
    {
        // Compute shared secret
        let secret = shared_secret(
            sender_default_spend_private.as_ref(),
            receiver_view_public.as_ref(),
        );

        // Compute HMAC for memo data
        Ok(compute_hmac(&secret, tx_out_public_key, kind, data))
    }
}

/// The two parties compute the same authentication code: the secret that the
/// sender's spend private key shares with the receiver's view key is the one
/// that the receiver's view private key shares with the sender's spend key.
pub proof fn lemma_shared_secret_is_symmetric(first: nat, second: nat)
    ensures
        spec_shared_secret(first, second) == spec_shared_secret(second, first),
{
    assert(mul_mod(first, second) == mul_mod(second, first)) by (nonlinear_arith);
}

} // verus!
