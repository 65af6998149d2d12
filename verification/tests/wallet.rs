use key_derives::LegacyWallet;

fn keccak(seed: &[u8; 32]) -> [u8; 32] {
    <sha3::Keccak256 as sha3::Digest>::digest(seed).into()
}

#[test]
fn deterministic_across_constructions() {
    let seed = [7u8; 32];
    let w1 = LegacyWallet::new(&seed);
    let w2 = LegacyWallet::new(&seed);
    assert_eq!(w1.spend().0.expose(), w2.spend().0.expose());
    assert_eq!(w1.spend().1, w2.spend().1);
    assert_eq!(w1.view().0.expose(), w2.view().0.expose());
    assert_eq!(w1.view().1, w2.view().1);
}

#[test]
fn key_pair_consistency_matches_curve() {
    let seed = [3u8; 32];
    let w = LegacyWallet::new(&seed);

    let (spend_priv, spend_pub) = w.spend();
    let expected_spend_pub = curve25519_dalek::EdwardsPoint::mul_base(
        &curve25519_dalek::Scalar::from_bytes_mod_order(spend_priv.expose()),
    )
    .compress()
    .to_bytes();
    assert_eq!(spend_pub, expected_spend_pub);

    let (view_priv, view_pub) = w.view();
    let expected_view_pub = curve25519_dalek::EdwardsPoint::mul_base(
        &curve25519_dalek::Scalar::from_bytes_mod_order(view_priv.expose()),
    )
    .compress()
    .to_bytes();
    assert_eq!(view_pub, expected_view_pub);
}

#[test]
fn zero_seed_boundary() {
    let seed = [0u8; 32];
    let w = LegacyWallet::new(&seed);

    // Reducing an all-zero buffer yields the zero scalar, whose base-point
    // multiple is the identity point.
    let (spend_priv, spend_pub) = w.spend();
    assert_eq!(spend_priv.expose(), [0u8; 32]);
    let mut identity = [0u8; 32];
    identity[0] = 1;
    assert_eq!(spend_pub, identity);

    // The view scalar comes from the digest of the seed and is not zero.
    let (view_priv, view_pub) = w.view();
    assert_ne!(view_priv.expose(), [0u8; 32]);
    let expected_view_priv =
        curve25519_dalek::Scalar::from_bytes_mod_order(keccak(&seed)).to_bytes();
    assert_eq!(view_priv.expose(), expected_view_priv);
    assert_ne!(view_pub, identity);
}

#[test]
fn view_key_differs_from_spend_key() {
    for seed in [[0u8; 32], [1u8; 32], [7u8; 32], [255u8; 32]] {
        let w = LegacyWallet::new(&seed);
        assert_ne!(w.spend().0.expose(), w.view().0.expose());
    }
}

#[test]
fn copy_independence() {
    let seed = [42u8; 32];
    let w = LegacyWallet::new(&seed);

    let (first_copy, first_pub) = w.spend();
    let first_bytes = first_copy.expose();
    drop(first_copy);

    let (second_copy, second_pub) = w.spend();
    assert_eq!(second_copy.expose(), first_bytes);
    assert_eq!(second_pub, first_pub);

    let (view_copy, _) = w.view();
    let view_bytes = view_copy.expose();
    drop(view_copy);
    assert_eq!(w.view().0.expose(), view_bytes);
}

#[test]
fn erase_primitive_zeroes_memory() {
    let mut buffer = [0xabu8; 32];
    zeroize::Zeroize::zeroize(&mut buffer);
    assert_eq!(buffer, [0u8; 32]);
}

#[test]
fn concrete_vector() {
    let seed = [1u8; 32];
    let w = LegacyWallet::new(&seed);

    // The seed read little-endian is below the group order, so the reduced
    // spend scalar is the seed itself.
    let (spend_priv, spend_pub) = w.spend();
    assert_eq!(spend_priv.expose(), seed);
    let expected_spend_pub: [u8; 32] = [
        19, 10, 232, 34, 1, 215, 7, 46, 111, 191, 192, 161, 136, 79, 181, 70, 54, 85, 77, 20,
        148, 91, 121, 145, 37, 207, 124, 227, 141, 71, 127, 81,
    ];
    assert_eq!(spend_pub, expected_spend_pub);

    // viewPrivate = reduce(Keccak-256(seed)), viewPublic = viewPrivate * G.
    let digest = keccak(&seed);
    let expected_view_priv = curve25519_dalek::Scalar::from_bytes_mod_order(digest);
    let (view_priv, view_pub) = w.view();
    assert_eq!(view_priv.expose(), expected_view_priv.to_bytes());
    let expected_view_pub = curve25519_dalek::EdwardsPoint::mul_base(&expected_view_priv)
        .compress()
        .to_bytes();
    assert_eq!(view_pub, expected_view_pub);
}

#[test]
fn reduction_wraps_large_seeds() {
    // The all-0xff seed read little-endian exceeds the group order, so the
    // spend scalar is the seed reduced modulo the order, not the seed itself.
    let seed = [255u8; 32];
    let w = LegacyWallet::new(&seed);
    let spend_priv = w.spend().0.expose();
    assert_ne!(spend_priv, seed);
    let expected: [u8; 32] = [
        28, 149, 152, 141, 116, 49, 236, 214, 112, 207, 125, 115, 244, 91, 239, 198, 254, 255,
        255, 255, 255, 255, 255, 255, 255, 255, 255, 255, 255, 255, 255, 15,
    ];
    assert_eq!(spend_priv, expected);
}

#[test]
fn view_pair_conversion_succeeds() {
    let seed = [9u8; 32];
    let w = LegacyWallet::new(&seed);
    let vp = w.view_pair().unwrap();

    // The credential carries the wallet's public spend key, and its public
    // view key is recomputed by monero-wallet from the private view scalar.
    assert_eq!(vp.spend().compress().to_bytes(), w.spend().1);
    assert_eq!(vp.view().compress().to_bytes(), w.view().1);
}
