//! Request payloads of the profile commands the embedding application
//! exposes.

use vstd::prelude::*;

use crate::ai::AISecrets;

verus! {

/// Payload of the add-profile command.
#[derive(Debug)]
pub struct AddProfileData {
    pub title: Option<String>,
    pub secrets: Option<AISecrets>,
}

/// Payload of the remove-profile command.
#[derive(Debug)]
pub struct RemoveProfileData {
    pub id: String,
}

/// Payload of the touch-profile command.
#[derive(Debug)]
pub struct TouchProfileData {
    pub id: String,
    pub model_id: Option<String>,
}

} // verus!
