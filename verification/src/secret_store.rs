//! Capability interface of the credential vault.
//!
//! Every backend exposes the same three operations.  A store vouches for a
//! set of key-value pairs, its `known` map; a `get` served from that map
//! never contradicts it, a successful `set` or `remove` updates it, and a
//! failed backend write never changes it.  A store whose `known` map is its
//! complete contents reports `exact`; for such a store `get` on an unknown
//! key is `Ok(None)`.  A missing key is never an error: `get` reports it as
//! `None` and `remove` succeeds.

use vstd::prelude::*;

use crate::error::AppError;

verus! {

/// The vault's capability interface, implemented by every backend.
///
/// Callers needing to share one store across threads wrap it in a lock of
/// their own; the operations themselves take the store exclusively.
pub trait SecretStore: Sized {
    /// The service namespace this store was opened for.  Stores opened for
    /// distinct services never observe each other's values.
    spec fn service(&self) -> Seq<char>;

    /// The key-value pairs the store vouches for.  For an exact store this
    /// is its complete contents; for a store backed by an external service
    /// it is the read-through cache of values written or observed.
    spec fn known(&self) -> Map<Seq<char>, Seq<char>>;

    /// Whether `known` is the store's complete contents.
    spec fn exact(&self) -> bool;

    /// Look up the value stored under `key`; `Ok(None)` for a missing key.
    fn get(&mut self, key: &str) -> (r: Result<Option<String>, AppError>)
        ensures
            final(self).service() == old(self).service(),
            final(self).exact() == old(self).exact(),
            match r {
                Ok(Some(v)) => final(self).known() == old(self).known().insert(key@, v@),
                Ok(None) => final(self).known() == old(self).known() && !old(
                    self,
                ).known().contains_key(key@),
                Err(_) => final(self).known() == old(self).known(),
            },
            old(self).known().contains_key(key@) ==> match r {
                Ok(Some(v)) => v@ == old(self).known()[key@],
                _ => false,
            },
            old(self).exact() ==> match r {
                Ok(Some(v)) => old(self).known().contains_key(key@) && v@ == old(
                    self,
                ).known()[key@],
                Ok(None) => !old(self).known().contains_key(key@),
                Err(_) => true,
            },
    ;

    /// Store `value` under `key`, overwriting unconditionally.
    fn set(&mut self, key: &str, value: &str) -> (r: Result<(), AppError>)
        ensures
            final(self).service() == old(self).service(),
            final(self).exact() == old(self).exact(),
            r is Ok ==> final(self).known() == old(self).known().insert(key@, value@),
            r is Err ==> final(self).known() == old(self).known(),
    ;

    /// Delete the value stored under `key`; removing an absent key succeeds.
    fn remove(&mut self, key: &str) -> (r: Result<(), AppError>)
        ensures
            final(self).service() == old(self).service(),
            final(self).exact() == old(self).exact(),
            r is Ok ==> final(self).known() == old(self).known().remove(key@),
            r is Err ==> final(self).known() == old(self).known(),
    ;
}

} // verus!
