//! Request payloads of the scheduling-algorithm commands.

use vstd::prelude::*;

verus! {

/// A clone request: the source algorithm and the copy's title.
#[derive(Debug)]
pub struct CloneAlgorithmData {
    pub title: String,
    pub source_id: i64,
}

/// A deletion request, with the algorithm that inherits the decks.
#[derive(Debug)]
pub struct DeleteAlgorithmData {
    pub id: i64,
    pub successor_id: Option<i64>,
}

/// A deck that uses an algorithm.
#[derive(Debug)]
pub struct AlgorithmDeck {
    pub id: i64,
    pub title: String,
}

} // verus!
