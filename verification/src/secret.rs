//! The secret value and its erasure discipline.
//!
//! Every buffer that ever holds secret bytes lives inside
//! `zeroize::Zeroizing<Vec<u8>>`, whose `Drop` overwrites the whole
//! allocation (elements and spare capacity) before the memory is freed.
//! That wrapper cannot be declared to the verifier, so `SecureString`
//! holds it in an opaque field; `secure_bytes` names its contents and a
//! handful of trusted methods state how each call changes them.
//! Everything built on top of them is verified.

use vstd::prelude::*;

verus! {

/// A secret byte string whose backing memory is overwritten before it is
/// freed: the field's `Drop` zeroizes the full allocation. Transformations
/// move bytes into a fresh `SecureString` and let the old buffer drop, so
/// the guarantee follows every intermediate value.
#[verifier::external_body]
pub struct SecureString {
    buf: zeroize::Zeroizing<Vec<u8>>,
}

/// The bytes held by a secret.
pub uninterp spec fn secure_bytes(s: SecureString) -> Seq<u8>;

impl View for SecureString {
    type V = Seq<u8>;

    open spec fn view(&self) -> Seq<u8> {
        secure_bytes(*self)
    }
}

impl SecureString {
    /// An empty secret.
    ///
    /// Relies on `zeroize::Zeroizing::new` and `Vec::new`: a fresh
    /// erased-on-drop wrapper around an empty byte buffer.
    #[verifier::external_body]
    pub fn new() -> (r: Self)
        ensures
            secure_bytes(r) == Seq::<u8>::empty(),
    {
        SecureString { buf: zeroize::Zeroizing::new(Vec::new()) }
    }

    /// Appends one byte.
    ///
    /// Relies on `Zeroizing`'s `DerefMut` and `Vec::push`.
    #[verifier::external_body]
    pub fn push(&mut self, b: u8)
        ensures
            secure_bytes(*final(self)) == secure_bytes(*old(self)).push(b),
    {
        self.buf.push(b);
    }

    /// The number of secret bytes.
    ///
    /// Relies on `Zeroizing`'s `Deref` and `Vec::len`.
    #[verifier::external_body]
    pub fn len(&self) -> (r: usize)
        ensures
            r == secure_bytes(*self).len(),
    {
        self.buf.len()
    }

    /// The byte at position `i`.
    ///
    /// Relies on `Zeroizing`'s `Deref` and slice indexing.
    #[verifier::external_body]
    pub fn byte_at(&self, i: usize) -> (r: u8)
        requires
            i < secure_bytes(*self).len(),
        ensures
            r == secure_bytes(*self)[i as int],
    {
        self.buf[i]
    }

    /// Borrows the secret bytes. The borrow keeps the erasure discipline:
    /// the backing memory still belongs to the wrapper and is erased when
    /// the `SecureString` drops.
    ///
    /// Relies on `Zeroizing`'s `Deref` and `Vec::as_slice`.
    #[verifier::external_body]
    pub fn as_bytes(&self) -> (r: &[u8])
        ensures
            r@ == secure_bytes(*self),
    {
        self.buf.as_slice()
    }

    /// Whether the secret is empty.
    pub fn is_empty(&self) -> (r: bool)
        ensures
            r == (self@.len() == 0),
    {
        self.len() == 0
    }
}

} // verus!
