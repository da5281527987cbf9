//! The account registry: the process-wide map from account identifier to
//! live client handle. It is the single source of truth for which
//! sessions are active, and it holds at most one handle per account.

use vstd::prelude::*;
use crate::text::chars_of;

verus! {

/// One registered account: its identifier and the engine client handle.
pub struct RegistryEntry {
    pub account_id: String,
    pub handle: u64,
}

/// The map from account identifier to live client handle.
pub struct AccountRegistry {
    entries: Vec<RegistryEntry>,
}

/// The map an entry list denotes, later entries winning.
pub open spec fn entries_map(s: Seq<RegistryEntry>) -> Map<Seq<char>, u64>
    decreases s.len(),
{
    if s.len() == 0 {
        Map::<Seq<char>, u64>::empty()
    } else {
        entries_map(s.drop_last()).insert(s.last().account_id@, s.last().handle)
    }
}

impl View for AccountRegistry {
    type V = Map<Seq<char>, u64>;

    closed spec fn view(&self) -> Map<Seq<char>, u64> {
        entries_map(self.entries@)
    }
}

/// No account identifier occurs twice in the list.
pub open spec fn entries_unique(s: Seq<RegistryEntry>) -> bool {
    forall|i: int, j: int|
        0 <= i < j < s.len() ==> s[i].account_id@ != s[j].account_id@
}

/// A key is in the denoted map exactly when some entry carries it, and the
/// map then holds that entry's handle (for unique entry lists).
proof fn lemma_entries_map_index(s: Seq<RegistryEntry>, k: Seq<char>)
    requires
        entries_unique(s),
    ensures
        entries_map(s).contains_key(k) <==> exists|i: int| 0 <= i < s.len() && s[i].account_id@ == k,
        forall|i: int|
            0 <= i < s.len() && s[i].account_id@ == k ==> entries_map(s).contains_key(k)
                && entries_map(s)[k] == s[i].handle,
    decreases s.len(),
{
    if s.len() > 0 {
        assert(entries_unique(s.drop_last())) by {
            assert(forall|i: int, j: int|
                0 <= i < j < s.drop_last().len() ==> s.drop_last()[i].account_id@ != s.drop_last()[j].account_id@);
        }
        lemma_entries_map_index(s.drop_last(), k);
        assert(forall|i: int| 0 <= i < s.len() - 1 ==> s[i] == s.drop_last()[i]);
    }
}

impl AccountRegistry {
    /// The registry's structural invariant: one entry per account.
    pub closed spec fn wf(&self) -> bool {
        entries_unique(self.entries@)
    }

    /// An empty registry.
    pub fn new() -> (r: AccountRegistry)
        ensures
            r.wf(),
            r@ == Map::<Seq<char>, u64>::empty(),
    {
        AccountRegistry { entries: Vec::new() }
    }

    /// The position of the entry for `id`, if one exists.
    fn position_of(&self, id: &str) -> (r: Option<usize>)
        ensures
            match r {
                Some(i) => i < self.entries@.len() && self.entries@[i as int].account_id@ == id@,
                None => forall|i: int|
                    0 <= i < self.entries@.len() ==> self.entries@[i].account_id@ != id@,
            },
    {
        let idv = chars_of(id);
        let n = self.entries.len();
        let mut i: usize = 0;
        while i < n
            invariant
                i <= n,
                n == self.entries@.len(),
                idv@ == id@,
                forall|j: int| 0 <= j < i ==> self.entries@[j].account_id@ != id@,
            decreases n - i,
        {
            let cur = chars_of(self.entries[i].account_id.as_str());
            if crate::text::chars_eq(&cur, &idv) {
                return Some(i);
            }
            i = i + 1;
        }
        None
    }

    /// The handle registered for `id`, if any.
    pub fn get(&self, id: &str) -> (r: Option<u64>)
        requires
            self.wf(),
        ensures
            r == (if self@.contains_key(id@) {
                Some(self@[id@])
            } else {
                None::<u64>
            }),
    {
        proof {
            lemma_entries_map_index(self.entries@, id@);
        }
        match self.position_of(id) {
            Some(i) => Some(self.entries[i].handle),
            None => None,
        }
    }

    /// Registers `handle` for `id`, replacing any previous handle.
    pub fn insert(&mut self, id: &str, handle: u64)
        requires
            old(self).wf(),
        ensures
            final(self).wf(),
            final(self)@ == old(self)@.insert(id@, handle),
    {
        let ghost s0 = self.entries@;
        match self.position_of(id) {
            Some(i) => {
                let account_id = chars_of(id);
                let account_id = crate::text::string_of(&account_id);
                self.entries.set(i, RegistryEntry { account_id, handle });
                proof {
                    lemma_set_entry(s0, self.entries@, i as int, id@, handle);
                }
            },
            None => {
                let account_id = chars_of(id);
                let account_id = crate::text::string_of(&account_id);
                self.entries.push(RegistryEntry { account_id, handle });
                proof {
                    assert(self.entries@.drop_last() =~= s0);
                }
            },
        }
    }

    /// Unregisters `id`, returning the handle that was registered, if any.
    pub fn remove(&mut self, id: &str) -> (r: Option<u64>)
        requires
            old(self).wf(),
        ensures
            final(self).wf(),
            final(self)@ == old(self)@.remove(id@),
            r == (if old(self)@.contains_key(id@) {
                Some(old(self)@[id@])
            } else {
                None::<u64>
            }),
    {
        let ghost s0 = self.entries@;
        proof {
            lemma_entries_map_index(s0, id@);
        }
        match self.position_of(id) {
            Some(i) => {
                let entry = self.entries.remove(i);
                proof {
                    lemma_remove_entry(s0, self.entries@, i as int, id@);
                }
                Some(entry.handle)
            },
            None => {
                proof {
                    assert(self@ =~= self@.remove(id@));
                }
                None
            },
        }
    }

    /// Removes and returns some registered account, if any is left.
    pub fn pop_any(&mut self) -> (r: Option<RegistryEntry>)
        requires
            old(self).wf(),
        ensures
            final(self).wf(),
            match r {
                Some(e) => old(self)@.contains_key(e.account_id@) && old(self)@[e.account_id@]
                    == e.handle && final(self)@ == old(self)@.remove(e.account_id@),
                None => old(self)@ == Map::<Seq<char>, u64>::empty() && *final(self) == *old(
                    self,
                ),
            },
    {
        let ghost s0 = self.entries@;
        if self.entries.len() == 0 {
            proof {
                assert(self@ =~= Map::<Seq<char>, u64>::empty());
            }
            return None;
        }
        proof {
            lemma_entries_map_index(s0, s0[0].account_id@);
        }
        let entry = self.entries.remove(0);
        proof {
            lemma_remove_entry(s0, self.entries@, 0, entry.account_id@);
        }
        Some(entry)
    }

    /// Whether no account is registered.
    pub fn is_empty(&self) -> (r: bool)
        requires
            self.wf(),
        ensures
            r == (self@ == Map::<Seq<char>, u64>::empty()),
    {
        proof {
            if self.entries@.len() > 0 {
                lemma_entries_map_index(self.entries@, self.entries@[0].account_id@);
            }
            assert(self.entries@.len() == 0 ==> self@ =~= Map::<Seq<char>, u64>::empty());
        }
        self.entries.len() == 0
    }
}

/// Replacing the entry at a key's position denotes the map with that key
/// re-inserted.
proof fn lemma_set_entry(
    s0: Seq<RegistryEntry>,
    s1: Seq<RegistryEntry>,
    i: int,
    k: Seq<char>,
    h: u64,
)
    requires
        entries_unique(s0),
        0 <= i < s0.len(),
        s0[i].account_id@ == k,
        s1.len() == s0.len(),
        s1[i].account_id@ == k,
        s1[i].handle == h,
        forall|j: int| 0 <= j < s0.len() && j != i ==> s1[j] == s0[j],
    ensures
        entries_unique(s1),
        entries_map(s1) == entries_map(s0).insert(k, h),
    decreases s0.len(),
{
    assert(entries_unique(s1));
    if i == s0.len() - 1 {
        assert(s1.drop_last() =~= s0.drop_last());
        assert(entries_map(s1) =~= entries_map(s0).insert(k, h));
    } else {
        assert(entries_unique(s0.drop_last()));
        assert(entries_unique(s1.drop_last()));
        lemma_set_entry(s0.drop_last(), s1.drop_last(), i, k, h);
        assert(s1.last() == s0.last());
        assert(entries_map(s1) =~= entries_map(s0).insert(k, h)) by {
            assert(entries_map(s1) == entries_map(s1.drop_last()).insert(
                s0.last().account_id@,
                s0.last().handle,
            ));
            assert(s0.last().account_id@ != k);
        }
    }
}

/// Removing a key's entry denotes the map without that key (for unique
/// entry lists).
proof fn lemma_remove_entry(s0: Seq<RegistryEntry>, s1: Seq<RegistryEntry>, i: int, k: Seq<char>)
    requires
        entries_unique(s0),
        0 <= i < s0.len(),
        s0[i].account_id@ == k,
        s1 == s0.subrange(0, i) + s0.subrange(i + 1, s0.len() as int),
    ensures
        entries_unique(s1),
        entries_map(s1) == entries_map(s0).remove(k),
    decreases s0.len(),
{
    assert(forall|j: int| 0 <= j < i ==> s1[j] == s0[j]);
    assert(forall|j: int| i <= j < s1.len() ==> s1[j] == s0[j + 1]);
    assert(entries_unique(s1));
    if i == s0.len() - 1 {
        assert(s1 =~= s0.drop_last());
        lemma_entries_map_index(s0.drop_last(), k);
        assert(forall|j: int| 0 <= j < s0.len() - 1 ==> s0.drop_last()[j] == s0[j]);
        assert(!entries_map(s0.drop_last()).contains_key(k));
        assert(entries_map(s1) =~= entries_map(s0).remove(k));
    } else {
        assert(entries_unique(s0.drop_last()));
        assert(s1.drop_last() =~= s0.drop_last().subrange(0, i) + s0.drop_last().subrange(
            i + 1,
            s0.drop_last().len() as int,
        ));
        lemma_remove_entry(s0.drop_last(), s1.drop_last(), i, k);
        assert(s1.last() == s0.last());
        assert(s0.last().account_id@ != k);
        assert(entries_map(s1) =~= entries_map(s0).remove(k));
    }
}

} // verus!
