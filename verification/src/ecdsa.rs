//! Extended public keys and non-hardened public-key derivation.

use vstd::prelude::*;

use crate::errors::WalletError;
use crate::wallet::DerivationPath;

verus! {

/// Whether `bytes` is a SEC1 encoding of a point on the secp256k1 curve,
/// exactly as decided by `ic_secp256k1::PublicKey::deserialize_sec1`.
pub uninterp spec fn is_valid_sec1(bytes: Seq<u8>) -> bool;

/// The uncompressed SEC1 encoding (65 bytes, leading byte 0x04) of the curve
/// point whose SEC1 encoding is `bytes`, as produced by
/// `ic_secp256k1::PublicKey::serialize_sec1` with compression off.
pub uninterp spec fn sec1_uncompressed(bytes: Seq<u8>) -> Seq<u8>;

/// The compressed SEC1 encoding of the child public key that non-hardened
/// SLIP-10 derivation yields from the parent key encoded by `pk`, the 32-byte
/// chain code `cc` and the path components `path`. A function of those inputs
/// alone, which is what makes derived addresses stable.
pub uninterp spec fn derived_public_key(pk: Seq<u8>, cc: Seq<u8>, path: Seq<Seq<u8>>) -> Seq<u8>;

/// The 32-byte chain code that the same derivation yields beside
/// [`derived_public_key`].
pub uninterp spec fn derived_chain_code(pk: Seq<u8>, cc: Seq<u8>, path: Seq<Seq<u8>>) -> Seq<u8>;

/// Relies on `ic_secp256k1::PublicKey::deserialize_sec1`, which accepts
/// exactly the SEC1 encodings of curve points, and `serialize_sec1(false)`,
/// which re-encodes the same point uncompressed: 65 bytes, leading byte 0x04
/// (SEC1 section 2.3.3; the inner point is never the identity).
#[verifier::external_body]
pub(crate) fn sec1_point_uncompress(bytes: &Vec<u8>) -> (r: Option<Vec<u8>>)
    ensures
        r is Some <==> is_valid_sec1(bytes@),
        r is Some ==> (r->0)@ == sec1_uncompressed(bytes@) && (r->0)@.len() == 65
            && (r->0)@[0] == 4u8,
{
    match ic_secp256k1::PublicKey::deserialize_sec1(bytes) {
        Ok(point) => Some(point.serialize_sec1(false)),
        Err(_) => None,
    }
}

/// Relies on `ic_secp256k1::PublicKey::derive_subkey_with_chain_code`:
/// non-hardened SLIP-10 public-key derivation, a total function of the parent
/// point, the 32-byte chain code and the path components alone. The child key
/// comes back as its 33-byte compressed SEC1 encoding (so itself a valid
/// point encoding) with the new 32-byte chain code. `deserialize_sec1`
/// rejects bytes that encode no curve point.
#[verifier::external_body]
pub(crate) fn bip32_public_derive(
    pk: &Vec<u8>,
    cc: &Vec<u8>,
    path: &Vec<Vec<u8>>,
) -> (r: Option<(Vec<u8>, Vec<u8>)>)
    requires
        cc@.len() == 32,
    ensures
        r is Some <==> is_valid_sec1(pk@),
        r is Some ==> (r->0).0@ == derived_public_key(pk@, cc@, path.deep_view())
            && is_valid_sec1((r->0).0@) && (r->0).0@.len() == 33
            && (r->0).1@ == derived_chain_code(pk@, cc@, path.deep_view())
            && (r->0).1@.len() == 32,
{
    let parent = match ic_secp256k1::PublicKey::deserialize_sec1(pk) {
        Ok(point) => point,
        Err(_) => return None,
    };
    let mut chain = [0u8; 32];
    chain.copy_from_slice(cc);
    let indices: Vec<ic_secp256k1::DerivationIndex> =
        path.iter().map(|c| ic_secp256k1::DerivationIndex(c.clone())).collect();
    let (child, next_chain) = parent
        .derive_subkey_with_chain_code(&ic_secp256k1::DerivationPath::new(indices), &chain);
    Some((child.serialize_sec1(true), next_chain.to_vec()))
}

/// An extended public key: a secp256k1 point in SEC1 serialized form together
/// with the 32 bytes of auxiliary entropy (chain code) that parameterize
/// further derivation. Key material that fails to validate is rejected at
/// construction, never silently coerced.
#[derive(Clone, Debug)]
pub struct EcdsaPublicKey {
    public_key: Vec<u8>,
    chain_code: Vec<u8>,
}

impl EcdsaPublicKey {
    /// The SEC1 bytes of the public key.
    pub closed spec fn key_bytes(&self) -> Seq<u8> {
        self.public_key@
    }

    /// The chain code bytes.
    pub closed spec fn chain_code_bytes(&self) -> Seq<u8> {
        self.chain_code@
    }

    /// Well-formedness: the key bytes encode a curve point and the chain
    /// code has its full 32 bytes. Constructors establish this and every
    /// derived key preserves it.
    pub open spec fn valid(&self) -> bool {
        is_valid_sec1(self.key_bytes()) && self.chain_code_bytes().len() == 32
    }

    /// Validates raw key material (as handed back by the custody service)
    /// and assembles an extended public key from it.
    pub fn try_new(public_key: Vec<u8>, chain_code: Vec<u8>) -> (r: Result<Self, WalletError>)
        ensures
            r is Ok <==> is_valid_sec1(public_key@) && chain_code@.len() == 32,
            r matches Ok(k) ==> k.key_bytes() == public_key@
                && k.chain_code_bytes() == chain_code@ && k.valid(),
            r matches Err(e) ==> e is InvalidKeyMaterial,
    {
        if chain_code.len() != 32 {
            return Err(WalletError::InvalidKeyMaterial);
        }
        if sec1_point_uncompress(&public_key).is_none() {
            return Err(WalletError::InvalidKeyMaterial);
        }
        Ok(EcdsaPublicKey { public_key, chain_code })
    }

    /// The SEC1 bytes of the public key.
    pub fn public_key_bytes(&self) -> (r: &Vec<u8>)
        ensures
            r@ == self.key_bytes(),
    {
        &self.public_key
    }

    /// The chain code bytes.
    pub fn chain_code(&self) -> (r: &Vec<u8>)
        ensures
            r@ == self.chain_code_bytes(),
    {
        &self.chain_code
    }

    /// Non-hardened HD public-key derivation: combines this key and chain
    /// code with the path components to a child extended public key, on
    /// public material alone. Identical inputs always yield the identical
    /// child key; a well-formed parent always derives successfully.
    pub fn derive_new_public_key(&self, derivation_path: &DerivationPath) -> (r: Result<
        EcdsaPublicKey,
        WalletError,
    >)
        ensures
            r is Ok <==> self.valid(),
            r matches Ok(k) ==> k.key_bytes() == derived_public_key(
                self.key_bytes(),
                self.chain_code_bytes(),
                derivation_path@,
            ) && k.chain_code_bytes() == derived_chain_code(
                self.key_bytes(),
                self.chain_code_bytes(),
                derivation_path@,
            ) && k.valid(),
            r matches Err(e) ==> e is InvalidKeyMaterial,
    {
        if self.chain_code.len() != 32 {
            return Err(WalletError::InvalidKeyMaterial);
        }
        match bip32_public_derive(&self.public_key, &self.chain_code, derivation_path.components()) {
            Some(derived) => Ok(EcdsaPublicKey { public_key: derived.0, chain_code: derived.1 }),
            None => Err(WalletError::InvalidKeyMaterial),
        }
    }
}

/// Law: derivation is pure — identical parent key material and identical
/// paths yield equal child public keys and equal chain codes, however often
/// and wherever the derivation is repeated.
pub proof fn lemma_derive_deterministic(
    k1: EcdsaPublicKey,
    k2: EcdsaPublicKey,
    p1: Seq<Seq<u8>>,
    p2: Seq<Seq<u8>>,
)
    requires
        k1.key_bytes() == k2.key_bytes(),
        k1.chain_code_bytes() == k2.chain_code_bytes(),
        p1 == p2,
    ensures
        derived_public_key(k1.key_bytes(), k1.chain_code_bytes(), p1) == derived_public_key(
            k2.key_bytes(),
            k2.chain_code_bytes(),
            p2,
        ),
        derived_chain_code(k1.key_bytes(), k1.chain_code_bytes(), p1) == derived_chain_code(
            k2.key_bytes(),
            k2.chain_code_bytes(),
            p2,
        ),
{
}

} // verus!
