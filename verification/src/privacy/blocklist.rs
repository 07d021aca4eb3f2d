//! The application blocklist.

use vstd::prelude::*;
use crate::text::{ascii_lowercase, contains_chars, is_ascii_text, lemma_contains_self, lowercase, str_contains, to_lowercase};

verus! {

/// An application name is blocked by a list of entries when its lower-case
/// form contains the lower-case form of some entry.
pub open spec fn blocks(entries: Seq<Seq<char>>, app: Seq<char>) -> bool {
    exists|i: int| 0 <= i < entries.len() && contains_chars(lowercase(app), lowercase(#[trigger] entries[i]))
}

/// For ASCII names and entries, blocking in plain terms: the name with
/// `A`..`Z` lowered contains some entry with `A`..`Z` lowered.
pub open spec fn ascii_blocks(entries: Seq<Seq<char>>, app: Seq<char>) -> bool {
    exists|i: int| 0 <= i < entries.len() && contains_chars(ascii_lowercase(app), ascii_lowercase(#[trigger] entries[i]))
}

/// Every entry is ASCII text.
pub open spec fn all_ascii(entries: Seq<Seq<char>>) -> bool {
    forall|i: int| 0 <= i < entries.len() ==> is_ascii_text(#[trigger] entries[i])
}

/// The entries after adding `app`: unchanged when `app` is already blocked,
/// else `app` appended.
pub open spec fn after_add(entries: Seq<Seq<char>>, app: Seq<char>) -> Seq<Seq<char>> {
    if blocks(entries, app) {
        entries
    } else {
        entries.push(app)
    }
}

/// An entry survives removal of `app` when the two differ after lower-casing.
pub open spec fn survives_removal(entry: Seq<char>, app: Seq<char>) -> bool {
    lowercase(entry) != lowercase(app)
}

/// The entries after removing `app`: every entry equal to it up to case is
/// dropped, the others keep their order.
pub open spec fn after_remove(entries: Seq<Seq<char>>, app: Seq<char>) -> Seq<Seq<char>> {
    entries.filter(|e: Seq<char>| survives_removal(e, app))
}

/// App blocklist: capture is disabled when any of these apps has focus.
pub struct Blocklist {
    apps: Vec<String>,
}

impl Blocklist {
    /// The entries, in order.
    pub closed spec fn entries(&self) -> Seq<Seq<char>> {
        self.apps@.map_values(|s: String| s@)
    }

    pub fn new(apps: Vec<String>) -> (b: Self)
        ensures
            b.entries() == apps@.map_values(|s: String| s@),
    {
        Blocklist { apps }
    }

    /// Whether the application is blocked (case-insensitive substring match).
    pub fn is_blocked(&self, app_name: &str) -> (r: bool)
        ensures
            r == blocks(self.entries(), app_name@),
            is_ascii_text(app_name@) && all_ascii(self.entries()) ==> r == ascii_blocks(self.entries(), app_name@),
    {
        let app_lower = to_lowercase(app_name);
        let n = self.apps.len();
        let mut i: usize = 0;
        while i < n
            invariant
                n == self.apps@.len(),
                i <= n,
                app_lower@ == lowercase(app_name@),
                is_ascii_text(app_name@) ==> app_lower@ == ascii_lowercase(app_name@),
                forall|k: int| 0 <= k < i ==> !contains_chars(lowercase(app_name@), lowercase(#[trigger] self.entries()[k])),
                is_ascii_text(app_name@) && all_ascii(self.entries()) ==> forall|k: int|
                    0 <= k < i ==> !contains_chars(ascii_lowercase(app_name@), ascii_lowercase(#[trigger] self.entries()[k])),
            decreases n - i,
        {
            let blocked_lower = to_lowercase(self.apps[i].as_str());
            assert(self.entries()[i as int] == self.apps@[i as int]@);
            if str_contains(app_lower.as_str(), blocked_lower.as_str()) {
                return true;
            }
            i = i + 1;
        }
        false
    }

    /// Adds an application unless it is already blocked.
    pub fn add(&mut self, app: String)
        ensures
            final(self).entries() == after_add(old(self).entries(), app@),
    {
        if !self.is_blocked(app.as_str()) {
            self.apps.push(app);
            assert(self.entries() =~= old(self).entries().push(app@));
        }
    }

    /// Removes every entry equal to `app` up to case.
    pub fn remove(&mut self, app: &str)
        ensures
            final(self).entries() == after_remove(old(self).entries(), app@),
    {
        let target = to_lowercase(app);
        let ghost old_entries = self.entries();
        let ghost keep = |e: Seq<char>| survives_removal(e, app@);
        let n = self.apps.len();
        let mut kept: Vec<String> = Vec::new();
        let mut i: usize = 0;
        while i < n
            invariant
                n == self.apps@.len(),
                i <= n,
                old_entries == self.entries(),
                old_entries == old(self).entries(),
                target@ == lowercase(app@),
                kept@.map_values(|s: String| s@) == old_entries.take(i as int).filter(keep),
                keep == (|e: Seq<char>| survives_removal(e, app@)),
            decreases n - i,
        {
            let lower = to_lowercase(self.apps[i].as_str());
            let ghost before = kept@;
            assert(old_entries[i as int] == self.apps@[i as int]@);
            if lower != target {
                kept.push(self.apps[i].clone());
            }
            proof {
                reveal_with_fuel(Seq::filter, 1);
                assert(old_entries.take(i + 1).drop_last() =~= old_entries.take(i as int));
                assert(kept@.map_values(|s: String| s@) =~= if lower@ != target@ {
                    before.map_values(|s: String| s@).push(old_entries[i as int])
                } else {
                    before.map_values(|s: String| s@)
                });
            }
            i = i + 1;
        }
        assert(old_entries.take(n as int) =~= old_entries);
        self.apps = kept;
    }
}

/// Adding an application makes it blocked.
pub proof fn lemma_added_app_is_blocked(entries: Seq<Seq<char>>, app: Seq<char>)
    ensures
        blocks(after_add(entries, app), app),
{
    if !blocks(entries, app) {
        let e = entries.push(app);
        lemma_contains_self(lowercase(app));
        assert(e[entries.len() as int] == app);
    }
}

/// Adding the same application twice leaves the same entries as adding it once.
pub proof fn lemma_add_idempotent(entries: Seq<Seq<char>>, app: Seq<char>)
    ensures
        after_add(after_add(entries, app), app) == after_add(entries, app),
{
    lemma_added_app_is_blocked(entries, app);
}

/// After removing an application no entry equals it up to case, and every
/// surviving entry was an entry before.
pub proof fn lemma_removed_app_is_gone(entries: Seq<Seq<char>>, app: Seq<char>)
    ensures
        forall|i: int| 0 <= i < after_remove(entries, app).len() ==> lowercase(#[trigger] after_remove(entries, app)[i]) != lowercase(app),
        forall|i: int| 0 <= i < after_remove(entries, app).len() ==> entries.contains(#[trigger] after_remove(entries, app)[i]),
{
    let f = |e: Seq<char>| survives_removal(e, app);
    let out = after_remove(entries, app);
    assert forall|i: int| 0 <= i < out.len() implies lowercase(#[trigger] out[i]) != lowercase(app) by {
        entries.lemma_filter_pred(f, i);
    }
    assert forall|i: int| 0 <= i < out.len() implies entries.contains(#[trigger] out[i]) by {
        assert(out.contains(out[i]));
        entries.lemma_filter_contains_rev(f, out[i]);
    }
}

/// Removing an application that was never listed leaves the entries as they were.
pub proof fn lemma_remove_absent_is_noop(entries: Seq<Seq<char>>, app: Seq<char>)
    requires
        forall|i: int| 0 <= i < entries.len() ==> lowercase(#[trigger] entries[i]) != lowercase(app),
    ensures
        after_remove(entries, app) == entries,
    decreases entries.len(),
{
    reveal_with_fuel(Seq::filter, 1);
    if entries.len() > 0 {
        let rest = entries.drop_last();
        assert forall|i: int| 0 <= i < rest.len() implies lowercase(#[trigger] rest[i]) != lowercase(app) by {
            assert(rest[i] == entries[i]);
        }
        lemma_remove_absent_is_noop(rest, app);
        assert(lowercase(entries[entries.len() - 1]) != lowercase(app));
        assert(rest.push(entries.last()) =~= entries);
    }
}

} // verus!
