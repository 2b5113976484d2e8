//! Owner identities, derivation paths and the wallet that composes
//! path building, key derivation and address encoding.

use vstd::prelude::*;

use crate::address::{
    ascii_chars, eip55_ascii_spec, eth_address_spec, to_address, EthereumAddress,
};
use crate::ecdsa::{derived_chain_code, derived_public_key, EcdsaPublicKey};
use crate::errors::WalletError;

verus! {

/// The schema version byte that opens every derivation path. Any change to
/// the path encoding must bump this byte: addresses of existing owners would
/// otherwise silently shift, so the byte is kept exactly as it stands.
pub const SCHEMA_V1: u8 = 1;

/// An opaque owner identity: all this core asks of it is a stable byte
/// serialization (for instance, a principal's raw bytes).
#[derive(Clone, Debug)]
pub struct OwnerId {
    bytes: Vec<u8>,
}

impl View for OwnerId {
    type V = Seq<u8>;

    closed spec fn view(&self) -> Seq<u8> {
        self.bytes@
    }
}

impl OwnerId {
    /// Wraps the owner's byte serialization, unbounded and untruncated.
    pub fn new(bytes: Vec<u8>) -> (r: Self)
        ensures
            r@ == bytes@,
    {
        OwnerId { bytes }
    }

    /// The owner's byte serialization.
    pub fn as_bytes(&self) -> (r: &Vec<u8>)
        ensures
            r@ == self@,
    {
        &self.bytes
    }
}

/// The derivation path of an owner: the schema version byte as its own
/// component, then the owner's raw bytes as one untruncated component.
pub open spec fn path_spec(owner: Seq<u8>) -> Seq<Seq<u8>> {
    seq![seq![SCHEMA_V1], owner]
}

/// An ordered sequence of derivation indices, each an opaque byte string.
pub struct DerivationPath {
    path: Vec<Vec<u8>>,
}

impl View for DerivationPath {
    type V = Seq<Seq<u8>>;

    closed spec fn view(&self) -> Seq<Seq<u8>> {
        self.path.deep_view()
    }
}

impl DerivationPath {
    /// Wraps the given components in order.
    pub fn new(path: Vec<Vec<u8>>) -> (r: Self)
        ensures
            r@ == path.deep_view(),
    {
        DerivationPath { path }
    }

    /// The components of the path, in order.
    pub fn components(&self) -> (r: &Vec<Vec<u8>>)
        ensures
            r.deep_view() == self@,
    {
        &self.path
    }
}

fn copy_bytes(src: &Vec<u8>) -> (r: Vec<u8>)
    ensures
        r@ == src@,
{
    let mut out: Vec<u8> = Vec::new();
    let mut i: usize = 0;
    while i < src.len()
        invariant
            i <= src.len(),
            out@ == src@.subrange(0, i as int),
        decreases src.len() - i,
    {
        out.push(src[i]);
        i += 1;
    }
    proof {
        assert(out@ =~= src@);
    }
    out
}

/// The raw components of the owner's derivation path: the schema version
/// byte, then the owner's bytes. Byte-for-byte reproducible for a fixed
/// owner and schema version.
pub fn derivation_path(owner: &OwnerId) -> (r: Vec<Vec<u8>>)
    ensures
        r.deep_view() == path_spec(owner@),
{
    let mut schema: Vec<u8> = Vec::new();
    schema.push(SCHEMA_V1);
    let owner_bytes = copy_bytes(owner.as_bytes());
    let mut path: Vec<Vec<u8>> = Vec::new();
    path.push(schema);
    path.push(owner_bytes);
    proof {
        assert(path.deep_view()[0] =~= seq![SCHEMA_V1]);
        assert(path.deep_view()[1] =~= owner@);
        assert(path.deep_view() =~= path_spec(owner@));
    }
    path
}

/// Builds the owner's derivation path: a deterministic, total function.
pub fn build_path(owner: &OwnerId) -> (r: DerivationPath)
    ensures
        r@ == path_spec(owner@),
{
    DerivationPath::new(derivation_path(owner))
}

/// Derives the owner-specific extended public key from the root key: builds
/// the owner's path and runs non-hardened derivation along it.
pub fn derive_public_key(owner: &OwnerId, public_key: &EcdsaPublicKey) -> (r: Result<
    EcdsaPublicKey,
    WalletError,
>)
    ensures
        r is Ok <==> public_key.valid(),
        r matches Ok(k) ==> k.key_bytes() == derived_public_key(
            public_key.key_bytes(),
            public_key.chain_code_bytes(),
            path_spec(owner@),
        ) && k.chain_code_bytes() == derived_chain_code(
            public_key.key_bytes(),
            public_key.chain_code_bytes(),
            path_spec(owner@),
        ) && k.valid(),
        r matches Err(e) ==> e is InvalidKeyMaterial,
{
    let path = build_path(owner);
    public_key.derive_new_public_key(&path)
}

/// The address bytes that the whole pipeline assigns to `owner` under the
/// root key encoded by `root_pk` and `root_cc`: derive along the owner's
/// path, then encode the child key.
pub open spec fn address_spec(root_pk: Seq<u8>, root_cc: Seq<u8>, owner: Seq<u8>) -> Seq<u8> {
    eth_address_spec(derived_public_key(root_pk, root_cc, path_spec(owner)))
}

/// An owner's wallet: the owner identity and the public key derived for it
/// from the root key. Holds no private material and nothing long-lived.
pub struct EthereumWallet {
    owner: OwnerId,
    derived_public_key: EcdsaPublicKey,
}

impl EthereumWallet {
    /// The owner's byte serialization.
    pub closed spec fn owner_view(&self) -> Seq<u8> {
        self.owner@
    }

    /// The derived extended public key.
    pub closed spec fn derived_key(&self) -> EcdsaPublicKey {
        self.derived_public_key
    }

    /// Well-formedness: the derived key is valid key material.
    pub open spec fn wf(&self) -> bool {
        self.derived_key().valid()
    }

    /// Builds the wallet for `owner` from the root extended public key:
    /// succeeds exactly when the root key material is well-formed.
    pub fn new(owner: OwnerId, root_public_key: &EcdsaPublicKey) -> (r: Result<
        EthereumWallet,
        WalletError,
    >)
        ensures
            r is Ok <==> root_public_key.valid(),
            r matches Ok(w) ==> w.owner_view() == owner@ && w.wf()
                && w.derived_key().key_bytes() == derived_public_key(
                root_public_key.key_bytes(),
                root_public_key.chain_code_bytes(),
                path_spec(owner@),
            ) && w.derived_key().chain_code_bytes() == derived_chain_code(
                root_public_key.key_bytes(),
                root_public_key.chain_code_bytes(),
                path_spec(owner@),
            ),
            r matches Err(e) ==> e is InvalidKeyMaterial,
    {
        let derived = match derive_public_key(&owner, root_public_key) {
            Ok(k) => k,
            Err(e) => return Err(e),
        };
        Ok(EthereumWallet { owner, derived_public_key: derived })
    }

    /// The Ethereum address of the wallet's derived public key.
    pub fn ethereum_address(&self) -> (r: EthereumAddress)
        requires
            self.wf(),
        ensures
            r@ == eth_address_spec(self.derived_key().key_bytes()),
            r@.len() == 20,
    {
        to_address(&self.derived_public_key)
    }
}

/// The full pipeline from the root key and an owner identity to the owner's
/// address: build the wallet, then encode its derived key. Succeeds exactly
/// when the root key material is well-formed, and for a fixed root key and
/// owner always returns the same address.
pub fn address_from_root(root_public_key: &EcdsaPublicKey, owner: OwnerId) -> (r: Result<
    EthereumAddress,
    WalletError,
>)
    ensures
        r is Ok <==> root_public_key.valid(),
        r matches Ok(a) ==> a@ == address_spec(
            root_public_key.key_bytes(),
            root_public_key.chain_code_bytes(),
            owner@,
        ) && a@.len() == 20,
        r matches Err(e) ==> e is InvalidKeyMaterial,
{
    let wallet = match EthereumWallet::new(owner, root_public_key) {
        Ok(w) => w,
        Err(e) => return Err(e),
    };
    Ok(wallet.ethereum_address())
}

/// The checksummed textual address for `owner` under the root key: the full
/// pipeline, ended by the EIP-55 text encoding of the address bytes.
pub fn address_text_from_root(root_public_key: &EcdsaPublicKey, owner: OwnerId) -> (r: Result<
    String,
    WalletError,
>)
    ensures
        r is Ok <==> root_public_key.valid(),
        r matches Ok(s) ==> s@ == ascii_chars(
            eip55_ascii_spec(
                address_spec(
                    root_public_key.key_bytes(),
                    root_public_key.chain_code_bytes(),
                    owner@,
                ),
            ),
        ),
        r matches Err(e) ==> e is InvalidKeyMaterial,
{
    let address = match address_from_root(root_public_key, owner) {
        Ok(a) => a,
        Err(e) => return Err(e),
    };
    Ok(address.to_checksummed_hex())
}

/// Law: the address assigned to an owner depends on the root key material
/// and the owner's bytes alone — two roots with equal key material and two
/// equal owner identities get the identical address, in particular across
/// process restarts that re-fetch the same root key.
pub proof fn lemma_address_deterministic(
    r1: EcdsaPublicKey,
    r2: EcdsaPublicKey,
    o1: OwnerId,
    o2: OwnerId,
)
    requires
        r1.key_bytes() == r2.key_bytes(),
        r1.chain_code_bytes() == r2.chain_code_bytes(),
        o1@ == o2@,
    ensures
        address_spec(r1.key_bytes(), r1.chain_code_bytes(), o1@) == address_spec(
            r2.key_bytes(),
            r2.chain_code_bytes(),
            o2@,
        ),
{
}

/// Law: path encoding is injective — distinct owner identities never share
/// a derivation path, so distinct owners are derived at distinct points of
/// the key tree.
pub proof fn lemma_path_injective(o1: Seq<u8>, o2: Seq<u8>)
    requires
        path_spec(o1) == path_spec(o2),
    ensures
        o1 == o2,
{
    assert(path_spec(o1)[1] == o1);
    assert(path_spec(o2)[1] == o2);
}

} // verus!
