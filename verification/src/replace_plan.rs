//! The atomic-replace protocol that persists the file-backed store.
//!
//! New contents are written as a whole to a sibling temporary file, any
//! existing destination file is removed, and the temporary file is renamed
//! onto the destination.  The embedding application performs the steps in
//! that order with the platform's rename, which replaces the name
//! atomically; this module models the protocol and proves that an
//! interruption at any point leaves the destination complete — old text,
//! absent, or new text — never truncated.

use vstd::prelude::*;

verus! {

/// One step of the replace protocol.
pub enum ReplaceStep {
    /// Write the whole new text to the temporary sibling file.
    WriteTemp,
    /// Remove the destination file if it exists, so the rename cannot be
    /// refused.
    RemoveDest,
    /// Rename the temporary file onto the destination, atomically.
    RenameTempToDest,
}

/// The two files the protocol touches, each absent or holding complete
/// text.  The destination is only ever changed by a remove or by the
/// atomic rename, so it never holds a prefix of anything.
pub struct ReplaceState {
    pub dest: Option<Seq<char>>,
    pub temp: Option<Seq<char>>,
}

/// The protocol's steps, in the order they are performed.
pub open spec fn replace_plan() -> Seq<ReplaceStep> {
    seq![ReplaceStep::WriteTemp, ReplaceStep::RemoveDest, ReplaceStep::RenameTempToDest]
}

/// The files after one completed step; `new_text` is the text being
/// persisted.
pub open spec fn apply_step(s: ReplaceState, step: ReplaceStep, new_text: Seq<char>) -> ReplaceState {
    match step {
        ReplaceStep::WriteTemp => ReplaceState { dest: s.dest, temp: Some(new_text) },
        ReplaceStep::RemoveDest => ReplaceState { dest: None, temp: s.temp },
        ReplaceStep::RenameTempToDest => match s.temp {
            Some(t) => ReplaceState { dest: Some(t), temp: None },
            None => s,
        },
    }
}

/// The files after a sequence of completed steps.
pub open spec fn apply_steps(
    s: ReplaceState,
    steps: Seq<ReplaceStep>,
    new_text: Seq<char>,
) -> ReplaceState
    decreases steps.len(),
{
    if steps.len() == 0 {
        s
    } else {
        apply_steps(apply_step(s, steps.first(), new_text), steps.drop_first(), new_text)
    }
}

/// Law (crash safety of the replace): however many leading steps of the
/// plan complete before an interruption, the destination file holds the
/// old complete text, is absent, or holds the new complete text — never a
/// truncation — and once the whole plan has run it holds the new text.
pub proof fn lemma_replace_never_partial(old_text: Option<Seq<char>>, new_text: Seq<char>, n: int)
    requires
        0 <= n <= replace_plan().len(),
    ensures
        ({
            let end = apply_steps(
                ReplaceState { dest: old_text, temp: None },
                replace_plan().subrange(0, n),
                new_text,
            );
            &&& (end.dest == old_text || end.dest is None || end.dest == Some(new_text))
            &&& (n == replace_plan().len() ==> end.dest == Some(new_text))
        }),
{
    reveal_with_fuel(apply_steps, 4);
    let plan = replace_plan();
    let start = ReplaceState { dest: old_text, temp: None };
    if n == 0 {
        assert(plan.subrange(0, 0) =~= Seq::<ReplaceStep>::empty());
    } else if n == 1 {
        let steps = plan.subrange(0, 1);
        assert(steps.first() == ReplaceStep::WriteTemp);
        assert(steps.drop_first() =~= Seq::<ReplaceStep>::empty());
    } else if n == 2 {
        let steps = plan.subrange(0, 2);
        assert(steps.first() == ReplaceStep::WriteTemp);
        assert(steps.drop_first().first() == ReplaceStep::RemoveDest);
        assert(steps.drop_first().drop_first() =~= Seq::<ReplaceStep>::empty());
    } else {
        let steps = plan.subrange(0, 3);
        assert(steps =~= plan);
        assert(steps.first() == ReplaceStep::WriteTemp);
        assert(steps.drop_first().first() == ReplaceStep::RemoveDest);
        assert(steps.drop_first().drop_first().first() == ReplaceStep::RenameTempToDest);
        assert(steps.drop_first().drop_first().drop_first() =~= Seq::<ReplaceStep>::empty());
    }
}

} // verus!
