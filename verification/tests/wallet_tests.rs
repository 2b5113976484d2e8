use eth_wallet::address::EthereumAddress;
use eth_wallet::ecdsa::EcdsaPublicKey;
use eth_wallet::errors::{CustodyError, WalletError};
use eth_wallet::state::RootKeyCache;
use eth_wallet::wallet::{
    address_from_root, address_text_from_root, build_path, derivation_path, derive_public_key,
    EthereumWallet, OwnerId, SCHEMA_V1,
};

/// The compressed SEC1 encoding of the secp256k1 generator point: a fixed,
/// valid test public key.
fn generator_bytes() -> Vec<u8> {
    vec![
        0x02, 0x79, 0xBE, 0x66, 0x7E, 0xF9, 0xDC, 0xBB, 0xAC, 0x55, 0xA0, 0x62, 0x95, 0xCE, 0x87,
        0x0B, 0x07, 0x02, 0x9B, 0xFC, 0xDB, 0x2D, 0xCE, 0x28, 0xD9, 0x59, 0xF2, 0x81, 0x5B, 0x16,
        0xF8, 0x17, 0x98,
    ]
}

fn test_root_key() -> EcdsaPublicKey {
    EcdsaPublicKey::try_new(generator_bytes(), vec![0u8; 32]).expect("test root key is valid")
}

#[test]
fn path_encoding_stable() {
    let owner = OwnerId::new(vec![0x01, 0x02, 0x03]);
    let first = derivation_path(&owner);
    let second = derivation_path(&owner);
    assert_eq!(first, second);
    assert_eq!(first, vec![vec![SCHEMA_V1], vec![0x01, 0x02, 0x03]]);
    let path = build_path(&owner);
    assert_eq!(path.components(), &first);
}

#[test]
fn path_keeps_full_owner_bytes() {
    let long_owner: Vec<u8> = (0..200u8).collect();
    let owner = OwnerId::new(long_owner.clone());
    let path = derivation_path(&owner);
    assert_eq!(path.len(), 2);
    assert_eq!(path[1], long_owner);
}

#[test]
fn derive_is_deterministic() {
    let root = test_root_key();
    let owner = OwnerId::new(vec![0x01, 0x02, 0x03]);
    let first = derive_public_key(&owner, &root).expect("derivation succeeds");
    let second = derive_public_key(&owner, &root).expect("derivation succeeds");
    assert_eq!(first.public_key_bytes(), second.public_key_bytes());
    assert_eq!(first.chain_code(), second.chain_code());
    // The root is untouched by derivation.
    assert_eq!(root.public_key_bytes(), &generator_bytes());
    assert_eq!(root.chain_code(), &vec![0u8; 32]);
}

#[test]
fn derived_key_differs_from_root() {
    let root = test_root_key();
    let owner = OwnerId::new(vec![0x01, 0x02, 0x03]);
    let derived = derive_public_key(&owner, &root).expect("derivation succeeds");
    assert_ne!(derived.public_key_bytes(), root.public_key_bytes());
    assert_ne!(derived.chain_code(), root.chain_code());
}

#[test]
fn derivation_matches_reference() {
    // The same derivation done directly with the underlying crate: fails if
    // any wrapper handed its input back unchanged or the path were built
    // differently.
    let root = test_root_key();
    let owner = OwnerId::new(vec![0x01, 0x02, 0x03]);
    let derived = derive_public_key(&owner, &root).expect("derivation succeeds");

    let parent = ic_secp256k1::PublicKey::deserialize_sec1(&generator_bytes()).unwrap();
    let path = ic_secp256k1::DerivationPath::new(vec![
        ic_secp256k1::DerivationIndex(vec![SCHEMA_V1]),
        ic_secp256k1::DerivationIndex(vec![0x01, 0x02, 0x03]),
    ]);
    let (child, chain) = parent.derive_subkey_with_chain_code(&path, &[0u8; 32]);
    assert_eq!(derived.public_key_bytes(), &child.serialize_sec1(true));
    assert_eq!(derived.chain_code(), &chain.to_vec());
}

#[test]
fn address_is_twenty_bytes() {
    let root = test_root_key();
    let address = address_from_root(&root, OwnerId::new(vec![0x01, 0x02, 0x03]))
        .expect("derivation succeeds");
    assert_eq!(address.as_bytes().len(), 20);
}

#[test]
fn address_is_deterministic() {
    let root = test_root_key();
    let a = address_from_root(&root, OwnerId::new(vec![0x01, 0x02, 0x03])).unwrap();
    let b = address_from_root(&root, OwnerId::new(vec![0x01, 0x02, 0x03])).unwrap();
    assert_eq!(a.as_bytes(), b.as_bytes());
    let ta = address_text_from_root(&root, OwnerId::new(vec![0x01, 0x02, 0x03])).unwrap();
    let tb = address_text_from_root(&root, OwnerId::new(vec![0x01, 0x02, 0x03])).unwrap();
    assert_eq!(ta, tb);
}

#[test]
fn known_key_address() {
    // Golden vector: the generator point with an all-zero chain code and
    // owner bytes [1, 2, 3] under schema version 1.
    let root = test_root_key();
    let text = address_text_from_root(&root, OwnerId::new(vec![0x01, 0x02, 0x03])).unwrap();
    assert_eq!(text, "0xD4D9b8b6aD52C2487f0d1B97dd7A75Ab974FDe55");
}

#[test]
fn distinct_owners_distinct_addresses() {
    let root = test_root_key();
    let owners: Vec<Vec<u8>> = vec![
        vec![],
        vec![0x01],
        vec![0x02],
        vec![0x01, 0x02],
        vec![0x01, 0x02, 0x03],
        vec![0xFF; 29],
        (0..29u8).collect(),
    ];
    let mut addresses: Vec<Vec<u8>> = Vec::new();
    for owner in &owners {
        let address = address_from_root(&root, OwnerId::new(owner.clone())).unwrap();
        addresses.push(address.as_bytes().clone());
    }
    for i in 0..addresses.len() {
        for j in 0..addresses.len() {
            if i != j {
                assert_ne!(addresses[i], addresses[j]);
            }
        }
    }
}

#[test]
fn invalid_point_is_rejected() {
    // 33 bytes that encode no curve point: no SEC1 encoding starts with 0x05.
    let junk = vec![0x05u8; 33];
    let result = EcdsaPublicKey::try_new(junk, vec![0u8; 32]);
    assert!(matches!(result, Err(WalletError::InvalidKeyMaterial)));
}

#[test]
fn short_chain_code_is_rejected() {
    let result = EcdsaPublicKey::try_new(generator_bytes(), vec![0u8; 31]);
    assert!(matches!(result, Err(WalletError::InvalidKeyMaterial)));
}

#[test]
fn wallet_composes_pipeline() {
    let root = test_root_key();
    let wallet = EthereumWallet::new(OwnerId::new(vec![0x01, 0x02, 0x03]), &root).unwrap();
    let direct = address_from_root(&root, OwnerId::new(vec![0x01, 0x02, 0x03])).unwrap();
    assert_eq!(wallet.ethereum_address().as_bytes(), direct.as_bytes());
}

#[test]
fn checksummed_hex_known_vector() {
    let bytes = vec![
        0x7a, 0x25, 0x0d, 0x56, 0x30, 0xb4, 0xcf, 0x53, 0x97, 0x39, 0xdf, 0x2c, 0x5d, 0xac, 0xb4,
        0xc6, 0x59, 0xf2, 0x48, 0x8d,
    ];
    let address = EthereumAddress::from_bytes(bytes).expect("twenty bytes");
    assert_eq!(
        address.to_checksummed_hex(),
        "0x7a250d5630B4cF539739dF2C5dAcb4c659F2488D"
    );
}

#[test]
fn checksummed_hex_matches_reference_display() {
    let root = test_root_key();
    let address = address_from_root(&root, OwnerId::new(vec![0x01, 0x02, 0x03])).unwrap();
    let mut raw = [0u8; 20];
    raw.copy_from_slice(address.as_bytes());
    let reference = ic_ethereum_types::Address::new(raw);
    assert_eq!(address.to_checksummed_hex(), reference.to_string());
}

#[test]
fn from_bytes_needs_twenty() {
    assert!(EthereumAddress::from_bytes(vec![0u8; 19]).is_none());
    assert!(EthereumAddress::from_bytes(vec![0u8; 21]).is_none());
    assert!(EthereumAddress::from_bytes(vec![0u8; 20]).is_some());
}

/// A custody-service stub that counts how often it is asked.
struct StubCustody {
    responses: Vec<Result<(Vec<u8>, Vec<u8>), CustodyError>>,
    calls: usize,
}

impl StubCustody {
    fn fetch(&mut self) -> Result<(Vec<u8>, Vec<u8>), CustodyError> {
        self.calls += 1;
        self.responses.remove(0)
    }
}

/// The get-or-fetch step as the hosting layer runs it: serve the cache, and
/// only on a miss ask the custody stub once.
fn get_root_key(
    cache: &mut RootKeyCache,
    custody: &mut StubCustody,
) -> Result<(Vec<u8>, Vec<u8>), WalletError> {
    if let Some(key) = cache.get_root_key() {
        return Ok((key.public_key_bytes().clone(), key.chain_code().clone()));
    }
    let response = custody.fetch();
    cache.accept_fetch(response)?;
    let key = cache.get_root_key().expect("just installed");
    Ok((key.public_key_bytes().clone(), key.chain_code().clone()))
}

#[test]
fn cache_single_initialization() {
    let mut cache = RootKeyCache::new();
    let mut custody = StubCustody {
        responses: vec![Ok((generator_bytes(), vec![0u8; 32]))],
        calls: 0,
    };
    let first = get_root_key(&mut cache, &mut custody).unwrap();
    assert_eq!(custody.calls, 1);
    let second = get_root_key(&mut cache, &mut custody).unwrap();
    let third = get_root_key(&mut cache, &mut custody).unwrap();
    assert_eq!(custody.calls, 1);
    assert_eq!(first, second);
    assert_eq!(first, third);
}

#[test]
fn custody_error_then_success() {
    let mut cache = RootKeyCache::new();
    let mut custody = StubCustody {
        responses: vec![
            Err(CustodyError { code: 5, message: "unavailable".to_string() }),
            Ok((generator_bytes(), vec![0u8; 32])),
        ],
        calls: 0,
    };
    let first = get_root_key(&mut cache, &mut custody);
    assert!(matches!(first, Err(WalletError::CustodyUnavailable(_))));
    assert!(cache.get_root_key().is_none());

    let second = get_root_key(&mut cache, &mut custody).unwrap();
    assert_eq!(custody.calls, 2);
    assert_eq!(second.0, generator_bytes());
    let root = cache.get_root_key().unwrap();
    let address = address_from_root(root, OwnerId::new(vec![0x01, 0x02, 0x03]));
    assert!(address.is_ok());
}

#[test]
fn invalid_fetch_leaves_cache_empty() {
    let mut cache = RootKeyCache::new();
    let result = cache.accept_fetch(Ok((vec![0x05u8; 33], vec![0u8; 32])));
    assert!(matches!(result, Err(WalletError::InvalidKeyMaterial)));
    assert!(cache.get_root_key().is_none());
}
