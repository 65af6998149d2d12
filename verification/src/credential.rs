use vstd::prelude::*;

verus! {

use crate::curve::{point_decodable, torsion_free};

/// Declares `monero_wallet::ViewPair`, the third-party view-only credential
/// built from a public spend point and a private view scalar.
#[verifier::external_type_specification]
#[verifier::external_body]
pub struct ExViewPair(monero_wallet::ViewPair);

/// Declares `monero_wallet::ViewPairError`, the error that
/// `monero_wallet::ViewPair::new` reports when it rejects its arguments.
#[verifier::external_type_specification]
#[verifier::external_body]
pub struct ExViewPairError(monero_wallet::ViewPairError);

/// The credential that `monero_wallet::ViewPair::new` builds from the spend
/// point encoded by `spend` and the view scalar encoded by `view`.
/// Names the result of `monero_wallet::ViewPair::new`, a function of its
/// arguments alone.
pub uninterp spec fn credential_of(spend: Seq<u8>, view: Seq<u8>) -> monero_wallet::ViewPair;

/// Relies on `monero_wallet::ViewPair::new`, which accepts exactly the pairs
/// whose spend point is torsion free (`EdwardsPoint::is_torsion_free`), and,
/// to convert the arguments, on
/// `monero_wallet::ed25519::CompressedPoint::decompress` (decodes a
/// canonically encoded spend point) and on
/// `curve25519_dalek::Scalar::from_bytes_mod_order` (rebuilds the view scalar
/// from its canonical encoding).
#[verifier::external_body]
pub(crate) fn make_view_pair(spend_pub: &[u8; 32], view_priv: &[u8; 32]) -> (r: Result<
    monero_wallet::ViewPair,
    monero_wallet::ViewPairError,
>)
    requires
        point_decodable(spend_pub@),
    ensures
        r is Ok <==> torsion_free(spend_pub@),
        r matches Ok(p) ==> p == credential_of(spend_pub@, view_priv@),
{
    let spend = monero_wallet::ed25519::CompressedPoint::from(*spend_pub)
        .decompress()
        .expect("canonical point encoding");
    let view = monero_wallet::ed25519::Scalar::from(curve25519_dalek::Scalar::from_bytes_mod_order(
        *view_priv,
    ));
    monero_wallet::ViewPair::new(spend, zeroize::Zeroizing::new(view))
}

} // verus!
