use vstd::prelude::*;

pub mod credential;
pub mod curve;
pub mod secret;

verus! {

use crate::credential::{credential_of, make_view_pair};
use crate::curve::{reduce_mod_order, base_mul, keccak256, point_decodable, torsion_free};
use crate::curve::{scalar_reduce, mul_base, keccak_digest};
use crate::secret::{SecretBytes, secret_bytes_of, wipe};

/// A legacy CryptoNote wallet: a spend key pair and a view key pair, both
/// derived deterministically from one 32-byte seed. The private scalars are
/// held in self-erasing buffers; the public points are plain values.
pub struct LegacyWallet {
    priv_spend: SecretBytes,
    pub_spend: [u8; 32],

    priv_view: SecretBytes,
    pub_view: [u8; 32],
}

impl LegacyWallet {
    /// The canonical encoding of the private spend scalar.
    pub closed spec fn spend_private(&self) -> Seq<u8> {
        secret_bytes_of(self.priv_spend)
    }

    /// The compressed encoding of the public spend point.
    pub closed spec fn spend_public(&self) -> Seq<u8> {
        self.pub_spend@
    }

    /// The canonical encoding of the private view scalar.
    pub closed spec fn view_private(&self) -> Seq<u8> {
        secret_bytes_of(self.priv_view)
    }

    /// The compressed encoding of the public view point.
    pub closed spec fn view_public(&self) -> Seq<u8> {
        self.pub_view@
    }

    #[verifier::type_invariant]
    spec fn wf(self) -> bool {
        &&& self.pub_spend@ == base_mul(secret_bytes_of(self.priv_spend))
        &&& self.pub_view@ == base_mul(secret_bytes_of(self.priv_view))
        &&& point_decodable(self.pub_spend@)
        &&& torsion_free(self.pub_spend@)
    }

    /// Whether this wallet holds exactly the key material that the legacy
    /// CryptoNote derivation yields for `seed`: the private spend scalar is
    /// the seed reduced modulo the group order, the private view scalar is
    /// the Keccak-256 digest of the seed reduced the same way, and each
    /// public point is the base-point multiple of its private scalar.
    pub open spec fn derived_from(&self, seed: Seq<u8>) -> bool {
        &&& self.spend_private() == reduce_mod_order(seed)
        &&& self.spend_public() == base_mul(reduce_mod_order(seed))
        &&& self.view_private() == reduce_mod_order(keccak256(seed))
        &&& self.view_public() == base_mul(reduce_mod_order(keccak256(seed)))
    }

    /// Derives wallet keys from a seed, using the legacy CryptoNote
    /// algorithm. Total: every 32-byte seed, the all-zero one included,
    /// yields a wallet. The transient private scalar encodings are wiped
    /// before the function returns.
    pub fn new(seed: &[u8; 32]) -> (w: LegacyWallet)
        ensures
            w.derived_from(seed@),
    {
        let mut priv_spend = scalar_reduce(seed);
        let pub_spend = mul_base(&priv_spend);

        let digest = keccak_digest(seed);
        let mut priv_view = scalar_reduce(&digest);
        let pub_view = mul_base(&priv_view);

        let wallet = LegacyWallet {
            priv_spend: SecretBytes::wrap(&priv_spend),
            pub_spend,
            priv_view: SecretBytes::wrap(&priv_view),
            pub_view,
        };

        wipe(&mut priv_spend);
        wipe(&mut priv_view);

        wallet
    }

    /// Returns the spend key pair of the wallet: an independently owned,
    /// self-erasing copy of the private spend scalar's encoding, and the
    /// public spend point's encoding. The wallet itself is unchanged.
    pub fn spend(&self) -> (r: (SecretBytes, [u8; 32]))
        ensures
            secret_bytes_of(r.0) == self.spend_private(),
            r.1@ == self.spend_public(),
            r.1@ == base_mul(secret_bytes_of(r.0)),
    {
        proof {
            use_type_invariant(self);
        }
        (self.priv_spend.duplicate(), self.pub_spend)
    }

    /// Returns the view key pair of the wallet: an independently owned,
    /// self-erasing copy of the private view scalar's encoding, and the
    /// public view point's encoding. The wallet itself is unchanged.
    pub fn view(&self) -> (r: (SecretBytes, [u8; 32]))
        ensures
            secret_bytes_of(r.0) == self.view_private(),
            r.1@ == self.view_public(),
            r.1@ == base_mul(secret_bytes_of(r.0)),
    {
        proof {
            use_type_invariant(self);
        }
        (self.priv_view.duplicate(), self.pub_view)
    }

    /// Returns a ViewPair from the wallet's private view key and public spend
    /// key, for use with `monero-wallet`: the credential that the external
    /// constructor builds from exactly those two values. The spend point of
    /// every wallet is a base-point multiple and so lies in the prime-order
    /// subgroup, which is exactly what `ViewPair::new` checks: the conversion
    /// always succeeds. The transient copy of the private view scalar's
    /// encoding is wiped before the function returns.
    pub fn view_pair(&self) -> (r: Result<monero_wallet::ViewPair, monero_wallet::ViewPairError>)
        ensures
            r is Ok,
            r matches Ok(p) ==> p == credential_of(self.spend_public(), self.view_private()),
    {
        proof {
            use_type_invariant(self);
        }
        let mut view_priv = self.priv_view.expose();
        let r = make_view_pair(&self.pub_spend, &view_priv);
        wipe(&mut view_priv);
        r
    }
}

/// Determinism: two wallets derived from the same seed hold identical key
/// material, bit for bit.
pub proof fn lemma_deterministic(w1: &LegacyWallet, w2: &LegacyWallet, seed: Seq<u8>)
    requires
        w1.derived_from(seed),
        w2.derived_from(seed),
    ensures
        w1.spend_private() == w2.spend_private(),
        w1.spend_public() == w2.spend_public(),
        w1.view_private() == w2.view_private(),
        w1.view_public() == w2.view_public(),
{
}

/// Key-pair consistency: for every seed, a wallet derived from it has each
/// public point equal to the base-point multiple of its private scalar.
pub proof fn lemma_key_pair_consistency(w: &LegacyWallet, seed: Seq<u8>)
    requires
        w.derived_from(seed),
    ensures
        w.spend_public() == base_mul(w.spend_private()),
        w.view_public() == base_mul(w.view_private()),
{
}

} // verus!
