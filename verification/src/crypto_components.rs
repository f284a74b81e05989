use vstd::prelude::*;
use core::marker::PhantomData;

verus! {

/// Marker for the two-party confidential mode: sender, recipient and fee
/// ciphertexts only.
#[derive(Clone)]
pub struct Confidential;

/// Marker for the anonymous mode, which additionally carries decoy entries.
pub struct Anonymous;

/// The closed set of privacy modes a ciphertext bundle can be built in.
pub trait PrivacyConfing {

}

impl PrivacyConfing for Confidential {

}

impl PrivacyConfing for Anonymous {

}

/// The ciphertexts of one transfer: the amount to the sender and to the
/// recipient, the fee, and, in the anonymous mode only, a decoy entry per
/// decoy recipient.  The ciphertext payload type itself is opaque to this
/// bundle.
pub struct MultiCiphertexts<C, CA: PrivacyConfing> {
    pub sender: C,
    pub recipient: C,
    pub decoys: Option<Vec<C>>,
    pub fee: C,
    pub _marker: PhantomData<CA>,
}

impl<C, CA: PrivacyConfing> MultiCiphertexts<C, CA> {
    /// The ciphertext of the amount under the sender's key.
    pub fn get_sender(&self) -> (r: &C)
        ensures
            r == self.sender,
    {
        &self.sender
    }

    /// The ciphertext of the amount under the recipient's key.
    pub fn get_recipient(&self) -> (r: &C)
        ensures
            r == self.recipient,
    {
        &self.recipient
    }

    /// The ciphertext of the fee under the sender's key.
    pub fn get_fee(&self) -> (r: &C)
        ensures
            r == self.fee,
    {
        &self.fee
    }
}

impl<C> MultiCiphertexts<C, Confidential> {
    /// Bundles the three ciphertexts of the two-party mode; no decoys exist
    /// in this mode.
    pub fn new(sender: C, recipient: C, fee: C) -> (r: MultiCiphertexts<C, Confidential>)
        ensures
            r.sender == sender,
            r.recipient == recipient,
            r.fee == fee,
            r.decoys is None,
    {
        MultiCiphertexts { sender, recipient, decoys: None, fee, _marker: PhantomData }
    }
}

impl<C> MultiCiphertexts<C, Anonymous> {
    /// Bundles the ciphertexts of the anonymous mode, one decoy entry per
    /// decoy recipient.
    pub fn new(sender: C, recipient: C, decoys: Vec<C>, fee: C) -> (r: MultiCiphertexts<
        C,
        Anonymous,
    >)
        ensures
            r.sender == sender,
            r.recipient == recipient,
            r.fee == fee,
            r.decoys matches Some(d) && d@ == decoys@,
    {
        MultiCiphertexts { sender, recipient, decoys: Some(decoys), fee, _marker: PhantomData }
    }
}

/// Construction of a ciphertext bundle from plain amounts and keys.  The
/// encryption itself belongs to the curve backend that implements this trait
/// for its own key, randomness and parameter types.
pub trait CiphertextTrait<K, R, P>: Sized {
    type CA: PrivacyConfing;

    fn encrypt(
        amount: u32,
        fee: u32,
        enc_key_sender: &K,
        enc_keys: &MultiEncKeys<K, Self::CA>,
        randomness: &R,
        params: &P,
    ) -> Self;
}

/// The encryption keys a transfer is built against: the recipient's key and,
/// in the anonymous mode only, the decoy recipients' keys.
pub struct MultiEncKeys<K, CA> {
    pub recipient: K,
    pub decoys: Option<Vec<K>>,
    pub _marker: PhantomData<CA>,
}

impl<K, CA> MultiEncKeys<K, CA> {
    /// The recipient's encryption key.
    pub fn get_recipient(&self) -> (r: &K)
        ensures
            r == self.recipient,
    {
        &self.recipient
    }
}

impl<K> MultiEncKeys<K, Confidential> {
    /// Keys of the two-party mode: the recipient alone.
    pub fn new(recipient: K) -> (r: MultiEncKeys<K, Confidential>)
        ensures
            r.recipient == recipient,
            r.decoys is None,
    {
        MultiEncKeys { recipient, decoys: None, _marker: PhantomData }
    }
}

impl<K> MultiEncKeys<K, Anonymous> {
    /// Keys of the anonymous mode: the recipient and the decoy recipients.
    pub fn new(recipient: K, decoys: Vec<K>) -> (r: MultiEncKeys<K, Anonymous>)
        ensures
            r.recipient == recipient,
            r.decoys matches Some(d) && d@ == decoys@,
    {
        MultiEncKeys { recipient, decoys: Some(decoys), _marker: PhantomData }
    }
}

} // verus!
