//! The named-profile store as the launch logic sees it: a finite mapping
//! from profile names to profiles. Persistence itself (reading and
//! writing the on-disk form) belongs to the caller; the logic here is
//! what the launcher does with the mapping, in particular the transient
//! handoff records that carry launch intent across an elevation
//! round trip, recognized by a naming tag and garbage-collected on
//! startup.

use crate::profile::{LaunchProfile, LaunchProfileView};
use vstd::prelude::*;

verus! {

/// The naming tag that marks a profile entry as a transient handoff
/// record.
pub open spec fn spec_transient_tag() -> Seq<char> {
    "__temp_"@
}

/// Whether a profile name carries the transient tag as its prefix.
pub open spec fn spec_is_transient(name: Seq<char>) -> bool {
    name.len() >= spec_transient_tag().len() && name.subrange(
        0,
        spec_transient_tag().len() as int,
    ) == spec_transient_tag()
}

/// Whether a profile name carries the transient tag.
pub fn is_transient_name(name: &String) -> (r: bool)
    ensures
        r == spec_is_transient(name@),
{
    proof {
        reveal_strlit("__temp_");
    }
    let tag = "__temp_";
    let n = name.as_str().unicode_len();
    if n < 7 {
        return false;
    }
    let mut i: usize = 0;
    while i < 7
        invariant
            0 <= i <= 7,
            name@.len() >= 7,
            tag@ == spec_transient_tag(),
            tag@.len() == 7,
            forall|j: int| 0 <= j < i ==> name@[j] == spec_transient_tag()[j],
        decreases 7 - i,
    {
        if name.as_str().get_char(i) != tag.get_char(i) {
            proof {
                if spec_is_transient(name@) {
                    assert(name@.subrange(0, 7)[i as int] == name@[i as int]);
                }
            }
            return false;
        }
        i = i + 1;
    }
    proof {
        assert(name@.subrange(0, 7) =~= spec_transient_tag());
    }
    true
}

/// Synthesize a transient profile name from the current process identity:
/// the transient tag followed by the process id in decimal. The result
/// always carries the tag.
pub fn temp_profile_name(pid: u64) -> (r: String)
    ensures
        r@ == spec_transient_tag() + crate::numfmt::spec_decimal(pid as nat),
        spec_is_transient(r@),
{
    proof {
        reveal_strlit("__temp_");
    }
    let mut s = String::new();
    s.append("__temp_");
    crate::numfmt::append_decimal(&mut s, pid);
    proof {
        assert(Seq::<char>::empty() + spec_transient_tag() =~= spec_transient_tag());
        assert(s@ =~= spec_transient_tag() + crate::numfmt::spec_decimal(pid as nat));
        assert(s@.subrange(0, spec_transient_tag().len() as int) =~= spec_transient_tag());
    }
    s
}

/// One named entry of the store.
#[derive(Clone, Debug)]
pub struct ProfileEntry {
    pub name: String,
    pub profile: LaunchProfile,
}

/// The store: a finite mapping from names to profiles, held as a vector
/// of entries with pairwise distinct names.
#[derive(Debug)]
pub struct ProfileStore {
    entries: Vec<ProfileEntry>,
}

/// The mapping that an entry sequence denotes; a later entry with the
/// same name would shadow an earlier one, but well-formed stores have no
/// duplicate names.
spec fn entries_map(s: Seq<ProfileEntry>) -> Map<Seq<char>, LaunchProfileView>
    decreases s.len(),
{
    if s.len() == 0 {
        Map::empty()
    } else {
        entries_map(s.drop_last()).insert(s.last().name@, s.last().profile@)
    }
}

/// Pairwise distinct names.
spec fn unique_names(s: Seq<ProfileEntry>) -> bool {
    forall|i: int, j: int|
        0 <= i < j < s.len() ==> (#[trigger] s[i]).name@ != (#[trigger] s[j]).name@
}

/// A name occurs in the denoted mapping exactly when some entry bears it.
proof fn lemma_dom_k(s: Seq<ProfileEntry>, k: Seq<char>)
    ensures
        entries_map(s).dom().contains(k) <==> exists|i: int|
            0 <= i < s.len() && (#[trigger] s[i]).name@ == k,
    decreases s.len(),
{
    if s.len() == 0 {
    } else {
        let d = s.drop_last();
        lemma_dom_k(d, k);
        if entries_map(s).dom().contains(k) {
            if k == s.last().name@ {
                assert(s[s.len() - 1].name@ == k);
            } else {
                let i = choose|i: int| 0 <= i < d.len() && (#[trigger] d[i]).name@ == k;
                assert(s[i].name@ == k);
            }
        }
        if exists|i: int| 0 <= i < s.len() && (#[trigger] s[i]).name@ == k {
            let i = choose|i: int| 0 <= i < s.len() && (#[trigger] s[i]).name@ == k;
            if i < s.len() - 1 {
                assert(d[i].name@ == k);
            }
        }
    }
}

/// Under distinct names, the entry bearing a name supplies its mapped
/// profile.
proof fn lemma_get(s: Seq<ProfileEntry>, i: int)
    requires
        unique_names(s),
        0 <= i < s.len(),
    ensures
        entries_map(s).dom().contains(s[i].name@),
        entries_map(s)[s[i].name@] == s[i].profile@,
    decreases s.len(),
{
    let d = s.drop_last();
    if i == s.len() - 1 {
    } else {
        assert(unique_names(d));
        assert(d[i] == s[i]);
        lemma_get(d, i);
        assert(s[i].name@ != s.last().name@);
    }
}

/// Under distinct names, removing the entry at an index removes exactly
/// its name from the denoted mapping.
proof fn lemma_remove_at(s: Seq<ProfileEntry>, i: int)
    requires
        unique_names(s),
        0 <= i < s.len(),
    ensures
        entries_map(s.remove(i)) == entries_map(s).remove(s[i].name@),
    decreases s.len(),
{
    let k = s[i].name@;
    let d = s.drop_last();
    if i == s.len() - 1 {
        assert(s.remove(i) =~= d);
        assert(forall|j: int| 0 <= j < d.len() ==> (#[trigger] d[j]).name@ != k);
        lemma_dom_k(d, k);
        assert(!entries_map(d).dom().contains(k));
        assert(entries_map(d).insert(k, s[i].profile@).remove(k) =~= entries_map(d));
    } else {
        assert(unique_names(d));
        lemma_remove_at(d, i);
        let lk = s.last().name@;
        let lv = s.last().profile@;
        assert(k != lk);
        assert(s.remove(i).drop_last() =~= d.remove(i));
        assert(s.remove(i).last() == s.last());
        assert(entries_map(s.remove(i)) == entries_map(d.remove(i)).insert(lk, lv));
        assert(entries_map(d).remove(k).insert(lk, lv) =~= entries_map(d).insert(lk, lv).remove(
            k,
        ));
    }
}

/// Under distinct names, the denoted mapping has exactly one element per
/// entry.
proof fn lemma_dom_card(s: Seq<ProfileEntry>)
    requires
        unique_names(s),
    ensures
        entries_map(s).dom().finite(),
        entries_map(s).dom().len() == s.len(),
    decreases s.len(),
{
    broadcast use vstd::set::group_set_axioms;

    if s.len() == 0 {
        assert(entries_map(s).dom() =~= Set::<Seq<char>>::empty());
    } else {
        let d = s.drop_last();
        let k = s.last().name@;
        assert(unique_names(d));
        lemma_dom_card(d);
        assert(forall|j: int| 0 <= j < d.len() ==> (#[trigger] d[j]).name@ != k);
        lemma_dom_k(d, k);
        assert(!entries_map(d).dom().contains(k));
        assert(entries_map(s).dom() =~= entries_map(d).dom().insert(k));
    }
}

impl View for ProfileStore {
    type V = Map<Seq<char>, LaunchProfileView>;

    closed spec fn view(&self) -> Map<Seq<char>, LaunchProfileView> {
        entries_map(self.entries@)
    }
}

impl ProfileStore {
    /// Well-formedness: no two entries bear the same name.
    pub closed spec fn wf(self) -> bool {
        unique_names(self.entries@)
    }

    /// An empty store.
    pub fn new() -> (r: ProfileStore)
        ensures
            r.wf(),
            r@ == Map::<Seq<char>, LaunchProfileView>::empty(),
    {
        ProfileStore { entries: Vec::new() }
    }

    /// How many profiles the store holds.
    pub fn len(&self) -> (r: usize)
        requires
            self.wf(),
        ensures
            self@.dom().finite(),
            r == self@.dom().len(),
    {
        proof {
            lemma_dom_card(self.entries@);
        }
        self.entries.len()
    }

    /// The profile stored under a name, if any.
    pub fn get(&self, name: &String) -> (r: Option<&LaunchProfile>)
        requires
            self.wf(),
        ensures
            match r {
                Some(p) => self@.dom().contains(name@) && p@ == self@[name@],
                None => !self@.dom().contains(name@),
            },
    {
        let n = self.entries.len();
        let mut i: usize = 0;
        while i < n
            invariant
                self.wf(),
                n == self.entries@.len(),
                0 <= i <= n,
                forall|j: int| 0 <= j < i ==> (#[trigger] self.entries@[j]).name@ != name@,
            decreases n - i,
        {
            if self.entries[i].name == *name {
                proof {
                    lemma_get(self.entries@, i as int);
                }
                return Some(&self.entries[i].profile);
            }
            i = i + 1;
        }
        proof {
            lemma_dom_k(self.entries@, name@);
        }
        None
    }

    /// Whether a profile is stored under a name.
    pub fn contains(&self, name: &String) -> (r: bool)
        requires
            self.wf(),
        ensures
            r == self@.dom().contains(name@),
    {
        self.get(name).is_some()
    }

    /// Remove the profile stored under a name; reports whether one was
    /// there.
    pub fn remove(&mut self, name: &String) -> (r: bool)
        requires
            old(self).wf(),
        ensures
            final(self).wf(),
            final(self)@ == old(self)@.remove(name@),
            r == old(self)@.dom().contains(name@),
    {
        let n = self.entries.len();
        let mut i: usize = 0;
        while i < n
            invariant
                self.wf(),
                self@ == old(self)@,
                self.entries@ == old(self).entries@,
                n == self.entries@.len(),
                0 <= i <= n,
                forall|j: int| 0 <= j < i ==> (#[trigger] self.entries@[j]).name@ != name@,
            decreases n - i,
        {
            if self.entries[i].name == *name {
                proof {
                    lemma_get(self.entries@, i as int);
                    lemma_remove_at(self.entries@, i as int);
                    let s = self.entries@;
                    let t = s.remove(i as int);
                    assert forall|a: int, b: int| 0 <= a < b < t.len() implies (
                    #[trigger] t[a]).name@ != (#[trigger] t[b]).name@ by {
                        let sa = if a < i { a } else { a + 1 };
                        let sb = if b < i { b } else { b + 1 };
                        assert(t[a] == s[sa] && t[b] == s[sb]);
                    }
                }
                self.entries.remove(i);
                return true;
            }
            i = i + 1;
        }
        proof {
            lemma_dom_k(self.entries@, name@);
            assert(self@.remove(name@) =~= self@);
        }
        false
    }

    /// Store a profile under a name, replacing any profile already there.
    pub fn insert(&mut self, name: String, profile: LaunchProfile)
        requires
            old(self).wf(),
        ensures
            final(self).wf(),
            final(self)@ == old(self)@.insert(name@, profile@),
    {
        let _ = self.remove(&name);
        proof {
            lemma_dom_k(self.entries@, name@);
        }
        let ghost pre = self.entries@;
        let ghost k = name@;
        self.entries.push(ProfileEntry { name, profile });
        proof {
            assert(self.entries@.drop_last() =~= pre);
            assert(forall|j: int| 0 <= j < pre.len() ==> (#[trigger] pre[j]).name@ != k);
            assert(old(self)@.remove(k).insert(k, profile@) =~= old(self)@.insert(k, profile@));
        }
    }

    /// The entry at a position, for enumeration. Its name is in the
    /// store's mapping and maps to its profile.
    pub fn entry_at(&self, i: usize) -> (r: &ProfileEntry)
        requires
            self.wf(),
            i < self@.dom().len(),
            self@.dom().finite(),
        ensures
            self@.dom().contains(r.name@),
            self@[r.name@] == r.profile@,
    {
        proof {
            lemma_dom_card(self.entries@);
            lemma_get(self.entries@, i as int);
        }
        &self.entries[i]
    }

    /// Whether any transient handoff record is present.
    pub fn has_transient(&self) -> (r: bool)
        requires
            self.wf(),
        ensures
            r == exists|k: Seq<char>| #[trigger]
                self@.dom().contains(k) && spec_is_transient(k),
    {
        let n = self.entries.len();
        let mut i: usize = 0;
        while i < n
            invariant
                self.wf(),
                n == self.entries@.len(),
                0 <= i <= n,
                forall|j: int|
                    0 <= j < i ==> !spec_is_transient((#[trigger] self.entries@[j]).name@),
            decreases n - i,
        {
            if is_transient_name(&self.entries[i].name) {
                proof {
                    lemma_get(self.entries@, i as int);
                    assert(self@.dom().contains(self.entries@[i as int].name@) && spec_is_transient(
                        self.entries@[i as int].name@,
                    ));
                }
                return true;
            }
            i = i + 1;
        }
        proof {
            if exists|k: Seq<char>| #[trigger] self@.dom().contains(k) && spec_is_transient(k) {
                let k = choose|k: Seq<char>| #[trigger]
                    self@.dom().contains(k) && spec_is_transient(k);
                lemma_dom_k(self.entries@, k);
            }
        }
        false
    }

    /// Delete every transient handoff record, keeping everything else:
    /// the garbage-collection pass run at startup, which removes records
    /// orphaned by a crash or a declined elevation prompt.
    pub fn purge_transient(&mut self)
        requires
            old(self).wf(),
        ensures
            final(self).wf(),
            forall|k: Seq<char>| #[trigger]
                final(self)@.dom().contains(k) <==> (old(self)@.dom().contains(k)
                    && !spec_is_transient(k)),
            forall|k: Seq<char>| #[trigger]
                final(self)@.dom().contains(k) ==> final(self)@[k] == old(self)@[k],
    {
        let mut i: usize = 0;
        while i < self.entries.len()
            invariant
                self.wf(),
                0 <= i <= self.entries@.len(),
                forall|j: int|
                    0 <= j < i ==> !spec_is_transient((#[trigger] self.entries@[j]).name@),
                forall|k: Seq<char>| #[trigger]
                    self@.dom().contains(k) ==> old(self)@.dom().contains(k) && self@[k] == old(
                        self,
                    )@[k],
                forall|k: Seq<char>|
                    old(self)@.dom().contains(k) && !spec_is_transient(k) ==> #[trigger] self@.dom().contains(
                        k,
                    ),
            decreases self.entries@.len() - i,
        {
            if is_transient_name(&self.entries[i].name) {
                let ghost prev = self@;
                let ghost kname = self.entries@[i as int].name@;
                proof {
                    lemma_get(self.entries@, i as int);
                    lemma_remove_at(self.entries@, i as int);
                    let s = self.entries@;
                    let t = s.remove(i as int);
                    assert forall|a: int, b: int| 0 <= a < b < t.len() implies (
                    #[trigger] t[a]).name@ != (#[trigger] t[b]).name@ by {
                        let sa = if a < i { a } else { a + 1 };
                        let sb = if b < i { b } else { b + 1 };
                        assert(t[a] == s[sa] && t[b] == s[sb]);
                    }
                }
                self.entries.remove(i);
                proof {
                    assert(self@ == prev.remove(kname));
                    assert forall|k: Seq<char>| #[trigger]
                        self@.dom().contains(k) implies old(self)@.dom().contains(k) && self@[k]
                        == old(self)@[k] by {
                        assert(prev.dom().contains(k) && k != kname);
                    }
                    assert forall|k: Seq<char>|
                        old(self)@.dom().contains(k) && !spec_is_transient(
                            k,
                        ) implies #[trigger] self@.dom().contains(k) by {
                        assert(prev.dom().contains(k));
                        assert(spec_is_transient(kname));
                        assert(k != kname);
                    }
                }
            } else {
                i = i + 1;
            }
        }
        proof {
            assert forall|k: Seq<char>| #[trigger]
                self@.dom().contains(k) implies !spec_is_transient(k) by {
                lemma_dom_k(self.entries@, k);
            }
        }
    }
}

/// A handoff record inserted for an elevation round trip and removed on
/// its completion, by either branch, is absent from the store afterward:
/// the store ends exactly as if the name had never been touched beyond
/// its removal.
pub proof fn lemma_handoff_round_trip(
    m: Map<Seq<char>, LaunchProfileView>,
    name: Seq<char>,
    p: LaunchProfileView,
)
    ensures
        !m.insert(name, p).remove(name).dom().contains(name),
        m.insert(name, p).remove(name) == m.remove(name),
{
    assert(m.insert(name, p).remove(name) =~= m.remove(name));
}

} // verus!
