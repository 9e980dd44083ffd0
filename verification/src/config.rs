//! A configuration that maps plugin type identifiers to sets of library paths, so
//! that a plugin manager for one plugin type can be made from it.

use vstd::prelude::*;
use crate::text::{same_text, contains_text, clone_texts};

verus! {

/// The set of texts held by a sequence of strings.
pub open spec fn text_set(v: Seq<String>) -> Set<Seq<char>> {
    Set::new(|x: Seq<char>| exists|i: int| 0 <= i < v.len() && #[trigger] v[i]@ == x)
}

/// The set of texts held by a sequence of string slices.
pub open spec fn str_set(v: Seq<&str>) -> Set<Seq<char>> {
    Set::new(|x: Seq<char>| exists|i: int| 0 <= i < v.len() && #[trigger] v[i]@ == x)
}

/// No text occurs twice in the sequence.
pub open spec fn distinct_texts(v: Seq<String>) -> bool {
    forall|i: int, j: int| 0 <= i < j < v.len() ==> #[trigger] v[i]@ != #[trigger] v[j]@
}

/// The configuration after inserting libraries for a plugin type: its entry replaced.
pub open spec fn inserted(m: Map<Seq<char>, Set<Seq<char>>>, t: Seq<char>, libs: Set<Seq<char>>) -> Map<Seq<char>, Set<Seq<char>>> {
    m.insert(t, libs)
}

/// The configuration after merging libraries into a plugin type: added to its set when it
/// has an entry, else a new entry.
pub open spec fn merged(m: Map<Seq<char>, Set<Seq<char>>>, t: Seq<char>, libs: Set<Seq<char>>) -> Map<Seq<char>, Set<Seq<char>>> {
    if m.dom().contains(t) {
        m.insert(t, m[t].union(libs))
    } else {
        m.insert(t, libs)
    }
}

/// One plugin type and the libraries configured for it.
#[derive(Debug)]
struct LibraryEntry {
    plugin_type: String,
    libraries: Vec<String>,
}

/// The plugin manager configuration: logically a map from plugin type identifier
/// to a set of library paths.
#[derive(Debug)]
pub struct PluginManagerConfiguration {
    entries: Vec<LibraryEntry>,
}

spec fn entries_have_type(e: Seq<LibraryEntry>, k: Seq<char>) -> bool {
    exists|i: int| 0 <= i < e.len() && #[trigger] e[i].plugin_type@ == k
}

spec fn entries_map(e: Seq<LibraryEntry>) -> Map<Seq<char>, Set<Seq<char>>> {
    Map::new(
        |k: Seq<char>| entries_have_type(e, k),
        |k: Seq<char>| text_set(e[choose|i: int| 0 <= i < e.len() && #[trigger] e[i].plugin_type@ == k].libraries@),
    )
}

spec fn entries_wf(e: Seq<LibraryEntry>) -> bool {
    &&& forall|i: int, j: int| 0 <= i < j < e.len()
        ==> #[trigger] e[i].plugin_type@ != #[trigger] e[j].plugin_type@
    &&& forall|i: int| 0 <= i < e.len() ==> distinct_texts(#[trigger] e[i].libraries@)
}

proof fn lemma_entries_at(e: Seq<LibraryEntry>, i: int)
    requires
        entries_wf(e),
        0 <= i < e.len(),
    ensures
        entries_map(e).dom().contains(e[i].plugin_type@),
        entries_map(e)[e[i].plugin_type@] == text_set(e[i].libraries@),
{
    let k = e[i].plugin_type@;
    assert(entries_have_type(e, k));
    let j = choose|j: int| 0 <= j < e.len() && #[trigger] e[j].plugin_type@ == k;
    assert(j == i) by {
        if j < i {
            assert(e[j].plugin_type@ != e[i].plugin_type@);
        } else if i < j {
            assert(e[i].plugin_type@ != e[j].plugin_type@);
        }
    }
}

proof fn lemma_entries_map_ext(e: Seq<LibraryEntry>, m: Map<Seq<char>, Set<Seq<char>>>)
    requires
        entries_wf(e),
        forall|k: Seq<char>| m.dom().contains(k) <==> entries_have_type(e, k),
        forall|i: int| 0 <= i < e.len() ==> m[#[trigger] e[i].plugin_type@] == text_set(e[i].libraries@),
    ensures
        entries_map(e) == m,
{
    assert forall|k: Seq<char>| #[trigger] entries_map(e).dom().contains(k) implies entries_map(e)[k] == m[k] by {
        let i = choose|i: int| 0 <= i < e.len() && #[trigger] e[i].plugin_type@ == k;
        lemma_entries_at(e, i);
    }
    assert(entries_map(e) =~= m);
}

impl PluginManagerConfiguration {
    #[verifier::type_invariant]
    spec fn well_formed(self) -> bool {
        entries_wf(self.entries@)
    }

    /// The configuration as a map from plugin type to its set of library paths.
    pub closed spec fn view(&self) -> Map<Seq<char>, Set<Seq<char>>> {
        entries_map(self.entries@)
    }

    /// An empty configuration.
    pub fn new() -> (r: Self)
        ensures
            r.view() == Map::<Seq<char>, Set<Seq<char>>>::empty(),
    {
        let r = PluginManagerConfiguration { entries: Vec::new() };
        assert(r.view() =~= Map::<Seq<char>, Set<Seq<char>>>::empty());
        r
    }

    fn find(&self, plugin_type: &str) -> (r: Option<usize>)
        ensures
            r matches Some(i) ==> i < self.entries@.len() && self.entries@[i as int].plugin_type@ == plugin_type@,
            r is None ==> !entries_have_type(self.entries@, plugin_type@),
    {
        find_entry(&self.entries, plugin_type)
    }

    /// Whether the configuration holds no plugin type.
    pub fn is_empty(&self) -> (r: bool)
        ensures
            r == (self.view().dom() == Set::<Seq<char>>::empty()),
    {
        proof { use_type_invariant(self); }
        if self.entries.len() == 0 {
            assert(self.view().dom() =~= Set::<Seq<char>>::empty());
            true
        } else {
            proof { lemma_entries_at(self.entries@, 0); }
            false
        }
    }

    /// The number of plugin types in the configuration.
    pub fn len(&self) -> (r: usize)
        ensures
            r == self.view().dom().len(),
    {
        proof {
            use_type_invariant(self);
            let e = self.entries@;
            let t = e.map_values(|x: LibraryEntry| x.plugin_type@);
            assert(self.view().dom() =~= t.to_set()) by {
                assert forall|k: Seq<char>| self.view().dom().contains(k) implies t.to_set().contains(k) by {
                    let i = choose|i: int| 0 <= i < e.len() && #[trigger] e[i].plugin_type@ == k;
                    assert(t[i] == k);
                }
                assert forall|k: Seq<char>| t.to_set().contains(k) implies self.view().dom().contains(k) by {
                    let i = choose|i: int| 0 <= i < t.len() && t[i] == k;
                    assert(e[i].plugin_type@ == k);
                }
            }
            assert(t.no_duplicates()) by {
                assert forall|i: int, j: int| 0 <= i < t.len() && 0 <= j < t.len() && i != j implies t[i] != t[j] by {
                    if i < j {
                        assert(e[i].plugin_type@ != e[j].plugin_type@);
                    } else {
                        assert(e[j].plugin_type@ != e[i].plugin_type@);
                    }
                }
            }
            t.unique_seq_to_set();
        }
        self.entries.len()
    }

    /// The plugin type identifiers of the configuration, each once.
    pub fn plugin_types(&self) -> (r: Vec<String>)
        ensures
            text_set(r@) == self.view().dom(),
            distinct_texts(r@),
    {
        proof { use_type_invariant(self); }
        let mut r: Vec<String> = Vec::new();
        let mut i: usize = 0;
        while i < self.entries.len()
            invariant
                i <= self.entries@.len(),
                entries_wf(self.entries@),
                r@.len() == i,
                forall|j: int| 0 <= j < i ==> #[trigger] r@[j]@ == self.entries@[j].plugin_type@,
            decreases self.entries@.len() - i,
        {
            r.push(self.entries[i].plugin_type.clone());
            i = i + 1;
        }
        proof {
            let e = self.entries@;
            assert forall|k: Seq<char>| text_set(r@).contains(k) implies self.view().dom().contains(k) by {
                let j = choose|j: int| 0 <= j < r@.len() && #[trigger] r@[j]@ == k;
                assert(e[j].plugin_type@ == k);
            }
            assert forall|k: Seq<char>| self.view().dom().contains(k) implies text_set(r@).contains(k) by {
                let j = choose|j: int| 0 <= j < e.len() && #[trigger] e[j].plugin_type@ == k;
                assert(r@[j]@ == k);
            }
            assert(text_set(r@) =~= self.view().dom());
            assert forall|a: int, b: int| 0 <= a < b < r@.len() implies #[trigger] r@[a]@ != #[trigger] r@[b]@ by {
                assert(e[a].plugin_type@ != e[b].plugin_type@);
            }
        }
        r
    }

    /// Sets the library list of a plugin type, replacing any entry it had; returns the
    /// libraries it had before, or `None` when it had no entry. The list must not be
    /// empty.
    pub fn insert(&mut self, plugin_type: &str, library_list: &[&str]) -> (r: Option<Vec<String>>)
        requires
            library_list@.len() > 0,
        ensures
            final(self).view() == inserted(old(self).view(), plugin_type@, str_set(library_list@)),
            r is Some <==> old(self).view().dom().contains(plugin_type@),
            r matches Some(v) ==> text_set(v@) == old(self).view()[plugin_type@] && distinct_texts(v@),
    {
        proof { use_type_invariant(&*self); }
        let libs = extend_distinct(Vec::new(), library_list);
        proof {
            assert(text_set(Seq::<String>::empty()).union(str_set(library_list@)) =~= str_set(library_list@));
        }
        let mut entries: Vec<LibraryEntry> = Vec::new();
        std::mem::swap(&mut entries, &mut self.entries);
        let r = match find_entry(&entries, plugin_type) {
            Some(i) => {
                proof { lemma_entries_at(entries@, i as int); }
                Some(replace_libraries(&mut entries, i, libs))
            },
            None => {
                add_entry(&mut entries, plugin_type, libs);
                None
            },
        };
        self.entries = entries;
        r
    }

    /// Adds libraries to a plugin type: to its set when it has an entry, else as a
    /// new entry. The list must not be empty.
    pub fn merge(&mut self, plugin_type: &str, library_list: &[&str])
        requires
            library_list@.len() > 0,
        ensures
            final(self).view() == merged(old(self).view(), plugin_type@, str_set(library_list@)),
    {
        proof { use_type_invariant(&*self); }
        let mut entries: Vec<LibraryEntry> = Vec::new();
        std::mem::swap(&mut entries, &mut self.entries);
        match find_entry(&entries, plugin_type) {
            Some(i) => {
                proof { lemma_entries_at(entries@, i as int); }
                let current = clone_texts(&entries[i].libraries);
                let libs = extend_distinct(current, library_list);
                let _ = replace_libraries(&mut entries, i, libs);
            },
            None => {
                let libs = extend_distinct(Vec::new(), library_list);
                proof {
                    assert(text_set(Seq::<String>::empty()).union(str_set(library_list@)) =~= str_set(library_list@));
                }
                add_entry(&mut entries, plugin_type, libs);
            },
        }
        self.entries = entries;
    }

    /// Removes the entry of a plugin type and returns its libraries; `None` when it
    /// had no entry.
    pub fn remove(&mut self, plugin_type: &str) -> (r: Option<Vec<String>>)
        ensures
            final(self).view() == old(self).view().remove(plugin_type@),
            r is Some <==> old(self).view().dom().contains(plugin_type@),
            r matches Some(v) ==> text_set(v@) == old(self).view()[plugin_type@] && distinct_texts(v@),
    {
        proof { use_type_invariant(&*self); }
        let mut entries: Vec<LibraryEntry> = Vec::new();
        std::mem::swap(&mut entries, &mut self.entries);
        let r = match find_entry(&entries, plugin_type) {
            Some(i) => {
                proof { lemma_entries_at(entries@, i as int); }
                Some(take_entry(&mut entries, i))
            },
            None => {
                proof { assert(entries_map(entries@).remove(plugin_type@) =~= entries_map(entries@)); }
                None
            },
        };
        self.entries = entries;
        r
    }

    /// Whether the configuration has an entry for the plugin type.
    pub fn contains_plugin_type(&self, plugin_type: &str) -> (r: bool)
        ensures
            r == self.view().dom().contains(plugin_type@),
    {
        proof { use_type_invariant(self); }
        match self.find(plugin_type) {
            Some(i) => {
                proof { lemma_entries_at(self.entries@, i as int); }
                true
            },
            None => false,
        }
    }

    /// The library paths configured for the plugin type, each once; `None` when the
    /// configuration has no entry for it.
    pub fn plugin_libraries_for_type(&self, plugin_type: &str) -> (r: Option<Vec<String>>)
        ensures
            r is None <==> !self.view().dom().contains(plugin_type@),
            r matches Some(v) ==> text_set(v@) == self.view()[plugin_type@] && distinct_texts(v@),
    {
        proof { use_type_invariant(self); }
        match self.find(plugin_type) {
            Some(i) => {
                proof { lemma_entries_at(self.entries@, i as int); }
                Some(clone_texts(&self.entries[i].libraries))
            },
            None => None,
        }
    }
}

/// Replaces the libraries of entry `i`, returning the previous ones.
fn replace_libraries(e: &mut Vec<LibraryEntry>, i: usize, libs: Vec<String>) -> (r: Vec<String>)
    requires
        entries_wf(old(e)@),
        i < old(e)@.len(),
        distinct_texts(libs@),
    ensures
        entries_wf(final(e)@),
        entries_map(final(e)@) == entries_map(old(e)@).insert(old(e)@[i as int].plugin_type@, text_set(libs@)),
        r@ == old(e)@[i as int].libraries@,
{
    let ghost o = e@;
    let ghost m = entries_map(o);
    let entry = e.remove(i);
    let k = entry.plugin_type;
    let prev = entry.libraries;
    let ghost kv = k@;
    e.push(LibraryEntry { plugin_type: k, libraries: libs });
    proof {
        let n = e@.len();
        assert(n == o.len());
        assert forall|j: int| 0 <= j < n - 1 implies #[trigger] e@[j] == (if j < i { o[j] } else { o[j + 1] }) by {}
        assert(e@[n - 1].plugin_type@ == kv);
        assert forall|a: int, b: int| 0 <= a < b < n implies #[trigger] e@[a].plugin_type@ != #[trigger] e@[b].plugin_type@ by {
            let oa = if a < i { a } else { a + 1 };
            assert(e@[a] == o[oa]);
            if b == n - 1 {
                if oa < i { assert(o[oa].plugin_type@ != o[i as int].plugin_type@); }
                else { assert(o[i as int].plugin_type@ != o[oa].plugin_type@); }
            } else {
                let ob = if b < i { b } else { b + 1 };
                assert(e@[b] == o[ob]);
                assert(oa < ob);
            }
        }
        assert forall|a: int| 0 <= a < n implies distinct_texts(#[trigger] e@[a].libraries@) by {
            if a < n - 1 {
                let oa = if a < i { a } else { a + 1 };
                assert(e@[a] == o[oa]);
            }
        }
        let m2 = m.insert(kv, text_set(libs@));
        lemma_entries_at(o, i as int);
        assert forall|x: Seq<char>| m2.dom().contains(x) <==> entries_have_type(e@, x) by {
            if m2.dom().contains(x) {
                if x == kv {
                    assert(e@[n - 1].plugin_type@ == x);
                } else {
                    let j = choose|j: int| 0 <= j < o.len() && #[trigger] o[j].plugin_type@ == x;
                    let ej = if j < i { j } else { j - 1 };
                    assert(j != i);
                    assert(e@[ej] == o[j]);
                }
            }
            if entries_have_type(e@, x) {
                let j = choose|j: int| 0 <= j < n && #[trigger] e@[j].plugin_type@ == x;
                if j < n - 1 {
                    let oj = if j < i { j } else { j + 1 };
                    assert(e@[j] == o[oj]);
                    lemma_entries_at(o, oj);
                }
            }
        }
        assert forall|j: int| 0 <= j < n implies m2[#[trigger] e@[j].plugin_type@] == text_set(e@[j].libraries@) by {
            if j < n - 1 {
                let oj = if j < i { j } else { j + 1 };
                assert(e@[j] == o[oj]);
                lemma_entries_at(o, oj);
                assert(oj != i);
                if oj < i { assert(o[oj].plugin_type@ != o[i as int].plugin_type@); }
                else { assert(o[i as int].plugin_type@ != o[oj].plugin_type@); }
            }
        }
        lemma_entries_map_ext(e@, m2);
    }
    prev
}

/// Adds an entry for a plugin type that has none.
fn add_entry(e: &mut Vec<LibraryEntry>, plugin_type: &str, libs: Vec<String>)
    requires
        entries_wf(old(e)@),
        !entries_have_type(old(e)@, plugin_type@),
        distinct_texts(libs@),
    ensures
        entries_wf(final(e)@),
        entries_map(final(e)@) == entries_map(old(e)@).insert(plugin_type@, text_set(libs@)),
{
    let ghost o = e@;
    let ghost m = entries_map(o);
    e.push(LibraryEntry { plugin_type: String::from_str(plugin_type), libraries: libs });
    proof {
        let n = e@.len();
        assert forall|j: int| 0 <= j < n - 1 implies #[trigger] e@[j] == o[j] by {}
        assert forall|a: int, b: int| 0 <= a < b < n implies #[trigger] e@[a].plugin_type@ != #[trigger] e@[b].plugin_type@ by {
            assert(e@[a] == o[a]);
            if b < n - 1 { assert(e@[b] == o[b]); }
        }
        assert forall|a: int| 0 <= a < n implies distinct_texts(#[trigger] e@[a].libraries@) by {
            if a < n - 1 { assert(e@[a] == o[a]); }
        }
        let m2 = m.insert(plugin_type@, text_set(libs@));
        assert forall|x: Seq<char>| m2.dom().contains(x) <==> entries_have_type(e@, x) by {
            if m2.dom().contains(x) {
                if x == plugin_type@ {
                    assert(e@[n - 1].plugin_type@ == x);
                } else {
                    let j = choose|j: int| 0 <= j < o.len() && #[trigger] o[j].plugin_type@ == x;
                    assert(e@[j] == o[j]);
                }
            }
            if entries_have_type(e@, x) {
                let j = choose|j: int| 0 <= j < n && #[trigger] e@[j].plugin_type@ == x;
                if j < n - 1 {
                    assert(e@[j] == o[j]);
                    lemma_entries_at(o, j);
                }
            }
        }
        assert forall|j: int| 0 <= j < n implies m2[#[trigger] e@[j].plugin_type@] == text_set(e@[j].libraries@) by {
            if j < n - 1 {
                assert(e@[j] == o[j]);
                lemma_entries_at(o, j);
            }
        }
        lemma_entries_map_ext(e@, m2);
    }
}

/// Removes entry `i`, returning its libraries.
fn take_entry(e: &mut Vec<LibraryEntry>, i: usize) -> (r: Vec<String>)
    requires
        entries_wf(old(e)@),
        i < old(e)@.len(),
    ensures
        entries_wf(final(e)@),
        entries_map(final(e)@) == entries_map(old(e)@).remove(old(e)@[i as int].plugin_type@),
        r@ == old(e)@[i as int].libraries@,
{
    let ghost o = e@;
    let ghost m = entries_map(o);
    let ghost kv = o[i as int].plugin_type@;
    let entry = e.remove(i);
    proof {
        let n = e@.len();
        assert forall|j: int| 0 <= j < n implies #[trigger] e@[j] == (if j < i { o[j] } else { o[j + 1] }) by {}
        assert forall|a: int, b: int| 0 <= a < b < n implies #[trigger] e@[a].plugin_type@ != #[trigger] e@[b].plugin_type@ by {
            let oa = if a < i { a } else { a + 1 };
            let ob = if b < i { b } else { b + 1 };
            assert(e@[a] == o[oa]);
            assert(e@[b] == o[ob]);
        }
        assert forall|a: int| 0 <= a < n implies distinct_texts(#[trigger] e@[a].libraries@) by {
            let oa = if a < i { a } else { a + 1 };
            assert(e@[a] == o[oa]);
        }
        let m2 = m.remove(kv);
        assert forall|x: Seq<char>| m2.dom().contains(x) <==> entries_have_type(e@, x) by {
            if m2.dom().contains(x) {
                let j = choose|j: int| 0 <= j < o.len() && #[trigger] o[j].plugin_type@ == x;
                assert(j != i);
                let ej = if j < i { j } else { j - 1 };
                assert(e@[ej] == o[j]);
            }
            if entries_have_type(e@, x) {
                let j = choose|j: int| 0 <= j < n && #[trigger] e@[j].plugin_type@ == x;
                let oj = if j < i { j } else { j + 1 };
                assert(e@[j] == o[oj]);
                lemma_entries_at(o, oj);
                if oj < i { assert(o[oj].plugin_type@ != o[i as int].plugin_type@); }
                else { assert(o[i as int].plugin_type@ != o[oj].plugin_type@); }
            }
        }
        assert forall|j: int| 0 <= j < n implies m2[#[trigger] e@[j].plugin_type@] == text_set(e@[j].libraries@) by {
            let oj = if j < i { j } else { j + 1 };
            assert(e@[j] == o[oj]);
            lemma_entries_at(o, oj);
            if oj < i { assert(o[oj].plugin_type@ != o[i as int].plugin_type@); }
            else { assert(o[i as int].plugin_type@ != o[oj].plugin_type@); }
        }
        lemma_entries_map_ext(e@, m2);
    }
    entry.libraries
}

fn find_entry(e: &Vec<LibraryEntry>, plugin_type: &str) -> (r: Option<usize>)
    ensures
        r matches Some(i) ==> i < e@.len() && e@[i as int].plugin_type@ == plugin_type@,
        r is None ==> !entries_have_type(e@, plugin_type@),
{
    let mut i: usize = 0;
    while i < e.len()
        invariant
            i <= e@.len(),
            forall|j: int| 0 <= j < i ==> #[trigger] e@[j].plugin_type@ != plugin_type@,
        decreases e@.len() - i,
    {
        if same_text(e[i].plugin_type.as_str(), plugin_type) {
            return Some(i);
        }
        i = i + 1;
    }
    None
}

/// `v` extended with each text of `list` that it does not hold yet.
fn extend_distinct(v: Vec<String>, list: &[&str]) -> (r: Vec<String>)
    requires
        distinct_texts(v@),
    ensures
        distinct_texts(r@),
        text_set(r@) == text_set(v@).union(str_set(list@)),
{
    let mut r = v;
    let mut i: usize = 0;
    while i < list.len()
        invariant
            i <= list@.len(),
            distinct_texts(r@),
            text_set(r@) == text_set(v@).union(str_set(list@.subrange(0, i as int))),
        decreases list@.len() - i,
    {
        let s = list[i];
        let ghost before = r@;
        if !contains_text(&r, s) {
            r.push(String::from_str(s));
            proof {
                assert forall|a: int, b: int| 0 <= a < b < r@.len() implies #[trigger] r@[a]@ != #[trigger] r@[b]@ by {
                    if b == r@.len() - 1 {
                        assert(r@[a] == before[a]);
                    }
                }
                assert(text_set(r@) =~= text_set(before).insert(s@)) by {
                    assert forall|x: Seq<char>| text_set(before).contains(x) implies text_set(r@).contains(x) by {
                        let j = choose|j: int| 0 <= j < before.len() && #[trigger] before[j]@ == x;
                        assert(r@[j] == before[j]);
                    }
                    assert(r@[r@.len() - 1]@ == s@);
                    assert forall|x: Seq<char>| text_set(r@).contains(x) implies text_set(before).insert(s@).contains(x) by {
                        let j = choose|j: int| 0 <= j < r@.len() && #[trigger] r@[j]@ == x;
                        if j < before.len() {
                            assert(r@[j] == before[j]);
                        }
                    }
                }
            }
        } else {
            proof {
                let j = choose|j: int| 0 <= j < before.len() && #[trigger] before[j]@ == s@;
                assert(text_set(before).contains(s@));
            }
        }
        proof {
            let sub = list@.subrange(0, i as int);
            let sub1 = list@.subrange(0, i + 1);
            assert(str_set(sub1) =~= str_set(sub).insert(s@)) by {
                assert(sub1[i as int] == s);
                assert forall|x: Seq<char>| str_set(sub).contains(x) implies str_set(sub1).contains(x) by {
                    let j = choose|j: int| 0 <= j < sub.len() && #[trigger] sub[j]@ == x;
                    assert(sub1[j] == sub[j]);
                }
                assert forall|x: Seq<char>| str_set(sub1).contains(x) implies str_set(sub).insert(s@).contains(x) by {
                    let j = choose|j: int| 0 <= j < sub1.len() && #[trigger] sub1[j]@ == x;
                    if j < i {
                        assert(sub1[j] == sub[j]);
                    }
                }
            }
            assert(text_set(r@) =~= text_set(v@).union(str_set(sub1)));
        }
        i = i + 1;
    }
    assert(list@.subrange(0, list@.len() as int) =~= list@);
    r
}

impl Default for PluginManagerConfiguration {
    fn default() -> (r: Self)
        ensures
            r.view() == Map::<Seq<char>, Set<Seq<char>>>::empty(),
    {
        PluginManagerConfiguration::new()
    }
}

/// Merging libraries into a plugin type that has no entry does exactly what inserting them
/// does.
pub proof fn lemma_merge_new_type_is_insert(m: Map<Seq<char>, Set<Seq<char>>>, t: Seq<char>, libs: Set<Seq<char>>)
    requires
        !m.dom().contains(t),
    ensures
        merged(m, t, libs) == inserted(m, t, libs),
{
}

/// Merging never drops a library: after a merge, the plugin type holds every library it
/// held before and every library merged in, and the other types are unchanged.
pub proof fn lemma_merge_keeps_libraries(m: Map<Seq<char>, Set<Seq<char>>>, t: Seq<char>, libs: Set<Seq<char>>)
    ensures
        merged(m, t, libs).dom().contains(t),
        libs.subset_of(merged(m, t, libs)[t]),
        m.dom().contains(t) ==> m[t].subset_of(merged(m, t, libs)[t]),
        forall|k: Seq<char>| k != t ==> (#[trigger] merged(m, t, libs).dom().contains(k) <==> m.dom().contains(k)),
        forall|k: Seq<char>| k != t && m.dom().contains(k) ==> #[trigger] merged(m, t, libs)[k] == m[k],
{
}

/// Removing a plugin type right after inserting it leaves the configuration as removing
/// it from the configuration before the insert would: an insert is undone by a remove.
pub proof fn lemma_insert_then_remove(m: Map<Seq<char>, Set<Seq<char>>>, t: Seq<char>, libs: Set<Seq<char>>)
    ensures
        inserted(m, t, libs).remove(t) == m.remove(t),
        !m.dom().contains(t) ==> inserted(m, t, libs).remove(t) == m,
{
    assert(inserted(m, t, libs).remove(t) =~= m.remove(t));
    if !m.dom().contains(t) {
        assert(m.remove(t) =~= m);
    }
}

/// A configuration is empty exactly when it holds no plugin type: `is_empty` and `len`
/// agree.
pub proof fn lemma_empty_iff_no_types(c: &PluginManagerConfiguration)
    ensures
        c.view().dom().finite(),
        (c.view().dom() == Set::<Seq<char>>::empty()) <==> c.view().dom().len() == 0,
{
    let e = c.entries@;
    let t = e.map_values(|x: LibraryEntry| x.plugin_type@);
    assert(c.view().dom() =~= t.to_set()) by {
        assert forall|k: Seq<char>| c.view().dom().contains(k) implies t.to_set().contains(k) by {
            let i = choose|i: int| 0 <= i < e.len() && #[trigger] e[i].plugin_type@ == k;
            assert(t[i] == k);
        }
        assert forall|k: Seq<char>| t.to_set().contains(k) implies c.view().dom().contains(k) by {
            let i = choose|i: int| 0 <= i < t.len() && t[i] == k;
            assert(e[i].plugin_type@ == k);
        }
    }
    t.lemma_cardinality_of_set();
    if c.view().dom().len() == 0 {
        c.view().dom().lemma_len0_is_empty();
    }
}

} // verus!
