//! Encoding of a derived public key as a 20-byte Ethereum address.

use vstd::prelude::*;

use crate::ecdsa::{sec1_point_uncompress, sec1_uncompressed, EcdsaPublicKey};

verus! {

/// The 32-byte Keccak-256 digest of `data` (the Ethereum variant, not the
/// later SHA-3 standard): a function of the input bytes alone.
pub uninterp spec fn keccak256(data: Seq<u8>) -> Seq<u8>;

/// Relies on `ic_sha3::Keccak256::hash`: the Keccak-256 digest of the input,
/// with its constant 32-byte output length.
#[verifier::external_body]
pub(crate) fn keccak256_digest(data: &Vec<u8>) -> (r: Vec<u8>)
    ensures
        r@ == keccak256(data@),
        r@.len() == 32,
{
    ic_sha3::Keccak256::hash(data).to_vec()
}

/// The address bytes of the public key whose SEC1 encoding is `pk`: the last
/// 20 bytes of the Keccak-256 digest of the uncompressed encoding with its
/// leading format byte dropped.
pub open spec fn eth_address_spec(pk: Seq<u8>) -> Seq<u8> {
    keccak256(sec1_uncompressed(pk).skip(1)).skip(12)
}

/// A 20-byte Ethereum address. Always recomputed from a derived public key,
/// never stored as authoritative state: a projection, not a source of truth.
#[derive(Clone, Debug)]
pub struct EthereumAddress {
    bytes: Vec<u8>,
}

impl View for EthereumAddress {
    type V = Seq<u8>;

    closed spec fn view(&self) -> Seq<u8> {
        self.bytes@
    }
}

/// The ASCII code of the lowercase hexadecimal digit of value `n`.
pub open spec fn hex_ascii_lower(n: int) -> u8 {
    if n < 10 {
        (48 + n) as u8
    } else {
        (87 + n) as u8
    }
}

/// The lowercase ASCII hexadecimal encoding of `bytes`: two digits per byte,
/// high nibble first.
pub open spec fn hex_bytes_lower(bytes: Seq<u8>) -> Seq<u8> {
    Seq::new(
        2 * bytes.len(),
        |i: int|
            if i % 2 == 0 {
                hex_ascii_lower(bytes[i / 2] as int / 16)
            } else {
                hex_ascii_lower(bytes[i / 2] as int % 16)
            },
    )
}

/// Nibble `i` of a digest: the high half of byte `i / 2` for even `i`, the
/// low half for odd `i`.
pub open spec fn digest_nibble(digest: Seq<u8>, i: int) -> int {
    if i % 2 == 0 {
        digest[i / 2] as int / 16
    } else {
        digest[i / 2] as int % 16
    }
}

/// The mixed-case form of the ASCII hex digit `c`: uppercased exactly when
/// the checksum nibble is 8 or more (uppercasing a decimal digit changes
/// nothing).
pub open spec fn eip55_ascii(c: u8, nibble: int) -> u8 {
    if nibble >= 8 && 97 <= c && c <= 122 {
        (c - 32) as u8
    } else {
        c
    }
}

/// The ASCII bytes of the checksummed textual form of the address bytes:
/// `0x`, then the hex digits of the address, each uppercased exactly when
/// the corresponding nibble of the Keccak-256 digest of the lowercase hex
/// digits is 8 or more.
pub open spec fn eip55_ascii_spec(addr: Seq<u8>) -> Seq<u8> {
    let hexa = hex_bytes_lower(addr);
    let digest = keccak256(hexa);
    seq![48u8, 120u8] + Seq::new(hexa.len(), |i: int| eip55_ascii(hexa[i], digest_nibble(digest, i)))
}

/// The characters of an ASCII byte string, one per byte.
pub open spec fn ascii_chars(bytes: Seq<u8>) -> Seq<char> {
    bytes.map_values(|b: u8| b as char)
}

/// Relies on std's String::from_utf8: bytes below 0x80 are one-byte UTF-8
/// code points, so an ASCII byte string converts to the string of exactly
/// those characters.
#[verifier::external_body]
fn ascii_to_string(bytes: &Vec<u8>) -> (r: String)
    requires
        forall|i: int| 0 <= i < bytes@.len() ==> bytes@[i] < 128,
    ensures
        r@ == ascii_chars(bytes@),
{
    match String::from_utf8(bytes.clone()) {
        Ok(s) => s,
        Err(_) => String::new(),
    }
}

fn hex_digit_lower(n: u8) -> (r: u8)
    requires
        n < 16,
    ensures
        r == hex_ascii_lower(n as int),
{
    if n < 10 {
        48 + n
    } else {
        87 + n
    }
}

impl EthereumAddress {
    /// Wraps 20 raw address bytes, for address values carried in from
    /// outside this core; anything but exactly 20 bytes is refused.
    pub fn from_bytes(bytes: Vec<u8>) -> (r: Option<EthereumAddress>)
        ensures
            r is Some <==> bytes@.len() == 20,
            r matches Some(a) ==> a@ == bytes@,
    {
        if bytes.len() == 20 {
            Some(EthereumAddress { bytes })
        } else {
            None
        }
    }

    /// The raw address bytes.
    pub fn as_bytes(&self) -> (r: &Vec<u8>)
        ensures
            r@ == self@,
    {
        &self.bytes
    }

    /// The ASCII bytes of the checksummed mixed-case hexadecimal form of
    /// the address, with the `0x` prefix.
    pub fn checksummed_hex_ascii(&self) -> (r: Vec<u8>)
        requires
            self@.len() == 20,
        ensures
            r@ == eip55_ascii_spec(self@),
    {
        let mut hexa: Vec<u8> = Vec::new();
        let mut i: usize = 0;
        while i < self.bytes.len()
            invariant
                i <= self@.len(),
                self@.len() == 20,
                hexa@ == hex_bytes_lower(self@).subrange(0, 2 * i as int),
            decreases self@.len() - i,
        {
            let b = self.bytes[i];
            hexa.push(hex_digit_lower(b / 16));
            hexa.push(hex_digit_lower(b % 16));
            i += 1;
            proof {
                assert(hexa@ =~= hex_bytes_lower(self@).subrange(0, 2 * i as int));
            }
        }
        proof {
            assert(hexa@ =~= hex_bytes_lower(self@));
        }
        let digest = keccak256_digest(&hexa);
        let mut out: Vec<u8> = Vec::new();
        out.push(48);
        out.push(120);
        let mut j: usize = 0;
        while j < hexa.len()
            invariant
                j <= hexa@.len(),
                hexa@ == hex_bytes_lower(self@),
                hexa@.len() == 40,
                digest@ == keccak256(hexa@),
                digest@.len() == 32,
                out@.len() == j + 2,
                out@[0] == 48u8 && out@[1] == 120u8,
                forall|k: int|
                    0 <= k < j ==> out@[k + 2] == eip55_ascii(
                        hexa@[k],
                        digest_nibble(digest@, k),
                    ),
            decreases hexa@.len() - j,
        {
            let c = hexa[j];
            let nib = if j % 2 == 0 {
                digest[j / 2] / 16
            } else {
                digest[j / 2] % 16
            };
            let b = if nib >= 8 && 97 <= c && c <= 122 {
                c - 32
            } else {
                c
            };
            out.push(b);
            j += 1;
        }
        proof {
            assert(out@ =~= eip55_ascii_spec(self@));
        }
        out
    }

    /// The checksummed mixed-case hexadecimal form of the address, with the
    /// `0x` prefix: each hex digit is uppercased exactly when the matching
    /// nibble of the Keccak-256 digest of the lowercase hex digits is 8 or
    /// more.
    pub fn to_checksummed_hex(&self) -> (r: String)
        requires
            self@.len() == 20,
        ensures
            r@ == ascii_chars(eip55_ascii_spec(self@)),
    {
        let ascii = self.checksummed_hex_ascii();
        proof {
            assert forall|i: int| 0 <= i < ascii@.len() implies ascii@[i] < 128 by {
                if 2 <= i {
                    assert(ascii@[i] == eip55_ascii(
                        hex_bytes_lower(self@)[i - 2],
                        digest_nibble(keccak256(hex_bytes_lower(self@)), i - 2),
                    ));
                }
            }
        }
        ascii_to_string(&ascii)
    }
}

/// Encodes a well-formed public key as its Ethereum address: serialize the
/// point uncompressed, drop the leading 0x04 format byte, hash the remaining
/// 64 bytes with Keccak-256, and keep the last 20 bytes of the digest.
/// Pure and total for well-formed keys.
pub fn to_address(key: &EcdsaPublicKey) -> (r: EthereumAddress)
    requires
        key.valid(),
    ensures
        r@ == eth_address_spec(key.key_bytes()),
        r@.len() == 20,
{
    let uncompressed = match sec1_point_uncompress(key.public_key_bytes()) {
        Some(u) => u,
        None => unreached(),
    };
    let mut payload: Vec<u8> = Vec::new();
    let mut i: usize = 1;
    while i < uncompressed.len()
        invariant
            1 <= i <= uncompressed.len(),
            uncompressed@.len() == 65,
            payload@ == uncompressed@.subrange(1, i as int),
        decreases uncompressed.len() - i,
    {
        payload.push(uncompressed[i]);
        i += 1;
    }
    proof {
        assert(payload@ =~= sec1_uncompressed(key.key_bytes()).skip(1));
    }
    let digest = keccak256_digest(&payload);
    let mut addr: Vec<u8> = Vec::new();
    let mut j: usize = 12;
    while j < digest.len()
        invariant
            12 <= j <= digest.len(),
            digest@.len() == 32,
            digest@ == keccak256(sec1_uncompressed(key.key_bytes()).skip(1)),
            addr@ == digest@.subrange(12, j as int),
        decreases digest.len() - j,
    {
        addr.push(digest[j]);
        j += 1;
    }
    proof {
        assert(addr@ =~= eth_address_spec(key.key_bytes()));
    }
    EthereumAddress { bytes: addr }
}

} // verus!
