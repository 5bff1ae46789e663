//! First-run state of the application's database.

use vstd::prelude::*;

verus! {

/// Whether the database has been seeded yet.
#[derive(Debug, Clone, Copy, PartialEq, Eq, Structural)]
pub enum DbStatus {
    /// No settings rows yet: a fresh database awaiting the seed.
    Blank,
    /// Settings rows exist: the database is ready.
    Ready,
}

} // verus!
