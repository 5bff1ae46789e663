//! Hotkey settings: named binding lists for navigation and for grading.
//!
//! Each scope maps an action name to the list of key chords bound to it;
//! within one scope no chord may be bound twice, while the two scopes are
//! independent.  Action names are held at most once per scope.

use vstd::prelude::*;

use crate::error::AppError;
use crate::error::code_hotkeys_duplicate;

verus! {

/// One scope of bindings: action name to bound key chords, in order.
pub type HotkeyScope = Vec<(String, Vec<String>)>;

/// The hotkey bindings, by scope.
#[derive(Debug)]
pub struct HotkeysSettings {
    pub navigation: HotkeyScope,
    pub grades: HotkeyScope,
}

/// Whether `(i, j)` names a key chord of the scope: entry `i`, chord `j`.
pub open spec fn valid_pos(s: Seq<(String, Vec<String>)>, i: int, j: int) -> bool {
    0 <= i < s.len() && 0 <= j < s[i].1@.len()
}

/// The key chord at a position.
pub open spec fn key_at(s: Seq<(String, Vec<String>)>, i: int, j: int) -> Seq<char> {
    s[i].1@[j]@
}

/// Whether one position comes before another, reading entry by entry.
pub open spec fn pos_lt(i1: int, j1: int, i2: int, j2: int) -> bool {
    i1 < i2 || (i1 == i2 && j1 < j2)
}

/// Whether any key chord occurs twice within the scope.
pub open spec fn scope_has_duplicate(s: Seq<(String, Vec<String>)>) -> bool {
    exists|i1: int, j1: int, i2: int, j2: int|
        #![trigger key_at(s, i1, j1), key_at(s, i2, j2)]
        valid_pos(s, i1, j1) && valid_pos(s, i2, j2) && pos_lt(i1, j1, i2, j2) && key_at(
            s,
            i1,
            j1,
        ) == key_at(s, i2, j2)
}

/// Whether an entry of the scope carries the action name.
pub open spec fn scope_has_name(s: Seq<(String, Vec<String>)>, name: Seq<char>) -> bool {
    exists|i: int| 0 <= i < s.len() && (#[trigger] s[i]).0@ == name
}

/// Whether a key chord equal to entry `i2`'s chord `j2` stands anywhere
/// before it.
fn key_seen_before(scope: &HotkeyScope, i2: usize, j2: usize) -> (r: bool)
    requires
        i2 < scope@.len(),
        j2 < scope@[i2 as int].1@.len(),
    ensures
        r == exists|a: int, b: int|
            #![trigger key_at(scope@, a, b)]
            valid_pos(scope@, a, b) && pos_lt(a, b, i2 as int, j2 as int) && key_at(scope@, a, b)
                == key_at(scope@, i2 as int, j2 as int),
{
    let needle = &scope[i2].1[j2];
    let total = scope.len();
    let mut i1: usize = 0;
    while i1 <= i2
        invariant
            i1 <= i2 + 1,
            total == scope@.len(),
            i2 < scope@.len(),
            j2 < scope@[i2 as int].1@.len(),
            needle@ == key_at(scope@, i2 as int, j2 as int),
            forall|a: int, b: int|
                #![trigger key_at(scope@, a, b)]
                valid_pos(scope@, a, b) && a < i1 && pos_lt(a, b, i2 as int, j2 as int)
                    ==> key_at(scope@, a, b) != key_at(scope@, i2 as int, j2 as int),
        decreases i2 - i1 + 1,
    {
        let limit: usize = if i1 == i2 {
            j2
        } else {
            scope[i1].1.len()
        };
        let mut j1: usize = 0;
        while j1 < limit
            invariant
                i1 <= i2,
                total == scope@.len(),
                i2 < scope@.len(),
                j2 < scope@[i2 as int].1@.len(),
                needle@ == key_at(scope@, i2 as int, j2 as int),
                limit == if i1 == i2 {
                    j2 as int
                } else {
                    scope@[i1 as int].1@.len() as int
                },
                j1 <= limit,
                forall|a: int, b: int|
                    #![trigger key_at(scope@, a, b)]
                    valid_pos(scope@, a, b) && a < i1 && pos_lt(a, b, i2 as int, j2 as int)
                        ==> key_at(scope@, a, b) != key_at(scope@, i2 as int, j2 as int),
                forall|b: int|
                    #![trigger key_at(scope@, i1 as int, b)]
                    0 <= b < j1 ==> key_at(scope@, i1 as int, b) != key_at(
                        scope@,
                        i2 as int,
                        j2 as int,
                    ),
            decreases limit - j1,
        {
            if scope[i1].1[j1] == *needle {
                proof {
                    assert(valid_pos(scope@, i1 as int, j1 as int));
                    assert(pos_lt(i1 as int, j1 as int, i2 as int, j2 as int));
                    assert(key_at(scope@, i1 as int, j1 as int) == key_at(
                        scope@,
                        i2 as int,
                        j2 as int,
                    ));
                }
                return true;
            }
            j1 += 1;
        }
        i1 += 1;
    }
    false
}

/// Whether any key chord occurs twice within the scope.
fn scope_duplicate(scope: &HotkeyScope) -> (r: bool)
    ensures
        r == scope_has_duplicate(scope@),
{
    let n = scope.len();
    let mut i2: usize = 0;
    while i2 < n
        invariant
            i2 <= n,
            n == scope@.len(),
            forall|a: int, b: int, c: int, d: int|
                #![trigger key_at(scope@, a, b), key_at(scope@, c, d)]
                valid_pos(scope@, a, b) && valid_pos(scope@, c, d) && pos_lt(a, b, c, d) && c < i2
                    ==> key_at(scope@, a, b) != key_at(scope@, c, d),
        decreases n - i2,
    {
        let m = scope[i2].1.len();
        let mut j2: usize = 0;
        while j2 < m
            invariant
                i2 < n,
                n == scope@.len(),
                j2 <= m,
                m == scope@[i2 as int].1@.len(),
                forall|a: int, b: int, c: int, d: int|
                    #![trigger key_at(scope@, a, b), key_at(scope@, c, d)]
                    valid_pos(scope@, a, b) && valid_pos(scope@, c, d) && pos_lt(a, b, c, d) && c
                        < i2 ==> key_at(scope@, a, b) != key_at(scope@, c, d),
                forall|a: int, b: int, d: int|
                    #![trigger key_at(scope@, a, b), key_at(scope@, i2 as int, d)]
                    valid_pos(scope@, a, b) && 0 <= d < j2 && pos_lt(a, b, i2 as int, d)
                        ==> key_at(scope@, a, b) != key_at(scope@, i2 as int, d),
            decreases m - j2,
        {
            if key_seen_before(scope, i2, j2) {
                return true;
            }
            j2 += 1;
        }
        i2 += 1;
    }
    false
}

impl HotkeysSettings {
    /// Reject bindings where one scope holds the same key chord twice.
    pub fn validate(&self) -> (r: Result<(), AppError>)
        ensures
            r is Ok <==> !scope_has_duplicate(self.navigation@) && !scope_has_duplicate(
                self.grades@,
            ),
            r matches Err(e) ==> e.code@ == code_hotkeys_duplicate(),
    {
        if scope_duplicate(&self.navigation) {
            return Err(AppError::new("validation.settings-hotkeys.duplicate-keys", None));
        }
        if scope_duplicate(&self.grades) {
            return Err(AppError::new("validation.settings-hotkeys.duplicate-keys", None));
        }
        Ok(())
    }

    /// Give every default action name an entry, appending an empty
    /// binding list for each missing one; present entries are untouched.
    pub fn fill_defaults(&mut self)
        ensures
            old(self).navigation@.is_prefix_of(final(self).navigation@),
            old(self).grades@.is_prefix_of(final(self).grades@),
            scope_has_name(final(self).navigation@, "dashboard"@),
            scope_has_name(final(self).navigation@, "decks"@),
            scope_has_name(final(self).navigation@, "algorithms"@),
            scope_has_name(final(self).navigation@, "templates"@),
            scope_has_name(final(self).navigation@, "settings"@),
            scope_has_name(final(self).grades@, "again"@),
            scope_has_name(final(self).grades@, "hard"@),
            scope_has_name(final(self).grades@, "normal"@),
            scope_has_name(final(self).grades@, "easy"@),
    {
        ensure_name(&mut self.navigation, "dashboard");
        ensure_name(&mut self.navigation, "decks");
        ensure_name(&mut self.navigation, "algorithms");
        ensure_name(&mut self.navigation, "templates");
        ensure_name(&mut self.navigation, "settings");
        ensure_name(&mut self.grades, "again");
        ensure_name(&mut self.grades, "hard");
        ensure_name(&mut self.grades, "normal");
        ensure_name(&mut self.grades, "easy");
    }
}

/// Append an empty binding list under the name where no entry carries it.
fn ensure_name(scope: &mut HotkeyScope, name: &str)
    ensures
        old(scope)@.is_prefix_of(final(scope)@),
        final(scope)@.len() <= old(scope)@.len() + 1,
        scope_has_name(final(scope)@, name@),
        forall|nm: Seq<char>|
            #[trigger] scope_has_name(old(scope)@, nm) ==> scope_has_name(final(scope)@, nm),
        forall|i: int|
            old(scope)@.len() <= i < final(scope)@.len() ==> (
            #[trigger] final(scope)@[i]).1@.len() == 0,
{
    let needle: String = name.to_owned();
    let n = scope.len();
    let mut i: usize = 0;
    while i < n
        invariant
            i <= n,
            n == scope@.len(),
            needle@ == name@,
            *scope == *old(scope),
            forall|j: int| 0 <= j < i ==> (#[trigger] scope@[j]).0@ != name@,
        decreases n - i,
    {
        if scope[i].0 == needle {
            proof {
                assert(scope@.is_prefix_of(scope@));
            }
            return ;
        }
        i += 1;
    }
    let ghost before = scope@;
    scope.push((needle, Vec::new()));
    proof {
        assert(before.is_prefix_of(scope@));
        assert(scope@.last().0@ == name@);
        assert(scope@[scope@.len() - 1].0@ == name@);
        assert forall|nm: Seq<char>| #[trigger]
            scope_has_name(before, nm) implies scope_has_name(scope@, nm) by {
            let w = choose|i: int| 0 <= i < before.len() && before[i].0@ == nm;
            assert(scope@[w].0@ == nm);
        }
    }
}

} // verus!
