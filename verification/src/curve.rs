use vstd::prelude::*;

verus! {

/// The canonical 32-byte encoding of the scalar obtained by reducing the
/// 32-byte little-endian buffer `b` modulo the order of the Ed25519
/// prime-order subgroup.
/// Names the result of `curve25519_dalek::Scalar::from_bytes_mod_order`.
pub uninterp spec fn reduce_mod_order(b: Seq<u8>) -> Seq<u8>;

/// The compressed 32-byte encoding of the point obtained by multiplying the
/// Ed25519 base point by the scalar that `s` reduces to.
/// Names the result of `curve25519_dalek::EdwardsPoint::mul_base`.
pub uninterp spec fn base_mul(s: Seq<u8>) -> Seq<u8>;

/// The 32-byte Keccak-256 digest of `b`.
/// Names the result of `sha3::Keccak256::digest`.
pub uninterp spec fn keccak256(b: Seq<u8>) -> Seq<u8>;

/// Whether `b` is the canonical compressed encoding of an Ed25519 point.
/// Names the success of `monero_wallet::ed25519::CompressedPoint::decompress`.
pub uninterp spec fn point_decodable(b: Seq<u8>) -> bool;

/// Whether the Ed25519 point whose canonical compressed encoding is `b` lies
/// in the prime-order subgroup.
/// Names the result of `curve25519_dalek::EdwardsPoint::is_torsion_free`.
pub uninterp spec fn torsion_free(b: Seq<u8>) -> bool;

/// Relies on `curve25519_dalek::Scalar::from_bytes_mod_order` (reduction
/// modulo the group order, defined for every 32-byte input) and on
/// `Scalar::to_bytes` (the canonical encoding of the reduced scalar).
#[verifier::external_body]
pub(crate) fn scalar_reduce(b: &[u8; 32]) -> (r: [u8; 32])
    ensures
        r@ == reduce_mod_order(b@),
{
    curve25519_dalek::Scalar::from_bytes_mod_order(*b).to_bytes()
}

/// Relies on `curve25519_dalek::EdwardsPoint::mul_base` (fixed-base scalar
/// multiplication by the Ed25519 base point, a generator of the prime-order
/// subgroup) and on `EdwardsPoint::compress` (the canonical compressed
/// encoding). A base-point multiple lies in the prime-order subgroup, so its
/// encoding decompresses again and `is_torsion_free` holds of the point.
#[verifier::external_body]
pub(crate) fn mul_base(s: &[u8; 32]) -> (r: [u8; 32])
    ensures
        r@ == base_mul(s@),
        point_decodable(r@),
        torsion_free(r@),
{
    curve25519_dalek::EdwardsPoint::mul_base(&curve25519_dalek::Scalar::from_bytes_mod_order(*s))
        .compress()
        .to_bytes()
}

/// Relies on `sha3::Keccak256::digest`: the 32-byte Keccak-256 digest of the
/// input, a function of the input bytes alone.
#[verifier::external_body]
pub(crate) fn keccak_digest(b: &[u8; 32]) -> (r: [u8; 32])
    ensures
        r@ == keccak256(b@),
{
    let d: [u8; 32] = <sha3::Keccak256 as sha3::Digest>::digest(b).into();
    d
}

} // verus!
