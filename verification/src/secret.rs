use vstd::prelude::*;

verus! {

/// A self-erasing buffer holding the canonical 32-byte encoding of a private
/// scalar. The wrapped `zeroize::Zeroizing` overwrites the bytes with zeros
/// when the buffer is dropped, so a `SecretBytes` erases itself at the end of
/// its lifetime. Verus refuses a declaration of `zeroize::Zeroizing` itself
/// (its `?Sized` bound), so the container stands behind this struct.
#[verifier::external_body]
pub struct SecretBytes {
    inner: zeroize::Zeroizing<[u8; 32]>,
}

/// The bytes held by a self-erasing buffer.
/// Names the result of `zeroize::Zeroizing`'s `Deref` implementation.
pub uninterp spec fn secret_bytes_of(z: SecretBytes) -> Seq<u8>;

impl SecretBytes {
    /// Relies on `zeroize::Zeroizing::new`: the container wraps the given
    /// bytes unchanged.
    #[verifier::external_body]
    pub(crate) fn wrap(b: &[u8; 32]) -> (r: SecretBytes)
        ensures
            secret_bytes_of(r) == b@,
    {
        SecretBytes { inner: zeroize::Zeroizing::new(*b) }
    }

    /// Relies on `zeroize::Zeroizing`'s `Clone` implementation: an
    /// independently owned container holding the same bytes.
    #[verifier::external_body]
    pub(crate) fn duplicate(&self) -> (r: SecretBytes)
        ensures
            secret_bytes_of(r) == secret_bytes_of(*self),
    {
        SecretBytes { inner: self.inner.clone() }
    }

    /// Relies on `zeroize::Zeroizing`'s `Deref` implementation: reads the
    /// wrapped bytes. The result is a plain copy; the caller owns it and
    /// decides its lifetime.
    #[verifier::external_body]
    pub fn expose(&self) -> (r: [u8; 32])
        ensures
            r@ == secret_bytes_of(*self),
    {
        *self.inner
    }
}

/// Relies on `zeroize::Zeroize` for byte arrays: the buffer is overwritten
/// with zeros.
#[verifier::external_body]
pub(crate) fn wipe(b: &mut [u8; 32])
    ensures
        forall|i: int| 0 <= i < 32 ==> final(b)@[i] == 0u8,
{
    zeroize::Zeroize::zeroize(b)
}

} // verus!
