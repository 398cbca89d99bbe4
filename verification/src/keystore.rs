//! The key-store capability the registration flow drives.
//!
//! The store maps `(identity, key name)` to a raw secret. Activating stores
//! a newly derived secret with overwrite semantics; getting hands back a
//! [`SignKey`] handle on what the slot holds, and fails exactly when the
//! slot is empty. Nothing in this crate implements the trait: the
//! surrounding program brings the concrete store (hardware-backed or in
//! memory), and the contracts below are what the flow's proofs rely on.

use vstd::prelude::*;

use crate::error::KeyStoreFailure;
use crate::token::SignKey;

verus! {

/// Whose key a store slot holds. The registration flow only ever uses the
/// device's own identity.
#[derive(Debug, Clone, Copy, PartialEq, Eq, Structural)]
pub enum KeyIdentity {
    Device,
}

/// A store of signing secrets, keyed by name under the device identity.
pub trait KeyStore<K: SignKey>: Sized {
    /// The raw secret each named slot holds.
    open spec fn keys(&self) -> Map<Seq<char>, Seq<u8>> {
        vstd::pervasive::arbitrary()
    }

    /// Store `key` under `key_name`, overwriting whatever the slot held.
    fn activate_identity_key(&mut self, identity: KeyIdentity, key_name: &str, key: Vec<u8>) -> (r:
        Result<(), KeyStoreFailure>)
        ensures
            r is Ok ==> final(self).keys() == old(self).keys().insert(key_name@, key@),
            r is Err ==> final(self).keys() == old(self).keys(),
    ;

    /// A handle on the secret under `key_name`; fails exactly when the slot
    /// is empty.
    fn get(&self, identity: &KeyIdentity, key_name: &str) -> (r: Result<K, KeyStoreFailure>)
        ensures
            r matches Ok(k) ==> self.keys().contains_key(key_name@) && k.material()
                == self.keys().index(key_name@),
            r is Err ==> !self.keys().contains_key(key_name@),
    ;
}

} // verus!
