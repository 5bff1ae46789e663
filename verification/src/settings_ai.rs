//! The AI settings document: the list of configured provider profiles.

use vstd::prelude::*;

use crate::ai::AIProfile;
use crate::ai::profile_err_code;
use crate::ai::profile_input_ok;
use crate::ai::profile_storage_ok;
use crate::error::AppError;

verus! {

/// All configured AI provider profiles, as kept in the settings store.
#[derive(Debug)]
pub struct AISettings {
    pub profiles: Vec<AIProfile>,
}

impl Default for AISettings {
    /// Settings with no profiles yet.
    fn default() -> (r: AISettings)
        ensures
            r.profiles@.len() == 0,
    {
        AISettings { profiles: Vec::new() }
    }
}

impl AISettings {
    /// Validate the whole document as stored; same as storage validation.
    pub fn validate(&self) -> (r: Result<(), AppError>)
        ensures
            r is Ok <==> (forall|i: int|
                0 <= i < self.profiles@.len() ==> profile_storage_ok(#[trigger] self.profiles@[i])),
            r matches Err(e) ==> exists|i: int|
                0 <= i < self.profiles@.len() && !profile_storage_ok(#[trigger] self.profiles@[i])
                    && (forall|j: int| 0 <= j < i ==> profile_storage_ok(#[trigger] self.profiles@[j]))
                    && e.code@ == profile_err_code(self.profiles@[i]),
    {
        self.validate_for_storage()
    }

    /// Reject the document if any profile fails input validation; the
    /// error is the first failing profile's.
    pub fn validate_for_input(&self) -> (r: Result<(), AppError>)
        ensures
            r is Ok <==> (forall|i: int|
                0 <= i < self.profiles@.len() ==> profile_input_ok(#[trigger] self.profiles@[i])),
            r matches Err(e) ==> exists|i: int|
                0 <= i < self.profiles@.len() && !profile_input_ok(#[trigger] self.profiles@[i])
                    && (forall|j: int| 0 <= j < i ==> profile_input_ok(#[trigger] self.profiles@[j]))
                    && e.code@ == profile_err_code(self.profiles@[i]),
    {
        let n = self.profiles.len();
        let mut i: usize = 0;
        while i < n
            invariant
                n == self.profiles@.len(),
                i <= n,
                forall|j: int| 0 <= j < i ==> profile_input_ok(#[trigger] self.profiles@[j]),
            decreases n - i,
        {
            match self.profiles[i].validate_for_input() {
                Ok(()) => {},
                Err(e) => {
                    return Err(e);
                },
            }
            i += 1;
        }
        Ok(())
    }

    /// Reject the document if any profile fails storage validation; the
    /// error is the first failing profile's.
    pub fn validate_for_storage(&self) -> (r: Result<(), AppError>)
        ensures
            r is Ok <==> (forall|i: int|
                0 <= i < self.profiles@.len() ==> profile_storage_ok(#[trigger] self.profiles@[i])),
            r matches Err(e) ==> exists|i: int|
                0 <= i < self.profiles@.len() && !profile_storage_ok(#[trigger] self.profiles@[i])
                    && (forall|j: int| 0 <= j < i ==> profile_storage_ok(#[trigger] self.profiles@[j]))
                    && e.code@ == profile_err_code(self.profiles@[i]),
    {
        let n = self.profiles.len();
        let mut i: usize = 0;
        while i < n
            invariant
                n == self.profiles@.len(),
                i <= n,
                forall|j: int| 0 <= j < i ==> profile_storage_ok(#[trigger] self.profiles@[j]),
            decreases n - i,
        {
            match self.profiles[i].validate_for_storage() {
                Ok(()) => {},
                Err(e) => {
                    return Err(e);
                },
            }
            i += 1;
        }
        Ok(())
    }
}

} // verus!
