//! The host's record of which plugins each loaded library contributed.

use vstd::prelude::*;
use crate::text::{same_text, clone_texts};

verus! {

/// A library path with the ids of the plugins it contributed.
pub type LibraryView = (Seq<char>, Seq<Seq<char>>);

/// The texts of a sequence of strings.
pub open spec fn texts(v: Seq<String>) -> Seq<Seq<char>> {
    v.map_values(|s: String| s@)
}

/// No library path occurs twice.
pub open spec fn distinct_paths(v: Seq<LibraryView>) -> bool {
    forall|i: int, j: int| 0 <= i < j < v.len() ==> #[trigger] v[i].0 != #[trigger] v[j].0
}

/// Whether some record has this path.
pub open spec fn has_path(v: Seq<LibraryView>, path: Seq<char>) -> bool {
    exists|i: int| 0 <= i < v.len() && #[trigger] v[i].0 == path
}

/// The plugin ids recorded for a path, if the path is recorded.
pub open spec fn ids_of(v: Seq<LibraryView>, path: Seq<char>) -> Option<Seq<Seq<char>>> {
    if has_path(v, path) {
        Some(v[choose|i: int| 0 <= i < v.len() && #[trigger] v[i].0 == path].1)
    } else {
        None
    }
}

/// The records after recording `ids` for `path`: its record replaced in place, or a new
/// record added last.
pub open spec fn recorded_library(v: Seq<LibraryView>, path: Seq<char>, ids: Seq<Seq<char>>) -> Seq<LibraryView> {
    if has_path(v, path) {
        v.update(choose|i: int| 0 <= i < v.len() && #[trigger] v[i].0 == path, (path, ids))
    } else {
        v.push((path, ids))
    }
}

/// The test "is not `id`".
pub open spec fn other_than(id: Seq<char>) -> spec_fn(Seq<char>) -> bool {
    |x: Seq<char>| x != id
}

/// The ids of `ids` other than `id`, in order.
pub open spec fn without_id(ids: Seq<Seq<char>>, id: Seq<char>) -> Seq<Seq<char>> {
    ids.filter(other_than(id))
}

/// The records after a plugin is forgotten: its id removed from every record, and the
/// records left without ids dropped.
pub open spec fn forgotten(v: Seq<LibraryView>, id: Seq<char>) -> Seq<LibraryView>
    decreases v.len(),
{
    if v.len() == 0 {
        Seq::<LibraryView>::empty()
    } else {
        let rest = forgotten(v.drop_last(), id);
        let kept = without_id(v.last().1, id);
        if kept.len() > 0 {
            rest.push((v.last().0, kept))
        } else {
            rest
        }
    }
}

/// The plugins to reload when the library file `changed` changes: the ids recorded for
/// every library with the same file name, in record order.
pub open spec fn reload_ids(v: Seq<LibraryView>, changed: Seq<char>) -> Seq<Seq<char>>
    decreases v.len(),
{
    if v.len() == 0 {
        Seq::<Seq<char>>::empty()
    } else {
        let rest = reload_ids(v.drop_last(), changed);
        if crate::host::file_name_of(v.last().0) == crate::host::file_name_of(changed) {
            rest + v.last().1
        } else {
            rest
        }
    }
}

/// The ids of `all` that `existing` does not hold, in order: the plugins that loading a
/// library added.
pub open spec fn newly_added(all: Seq<Seq<char>>, existing: Seq<Seq<char>>) -> Seq<Seq<char>>
    decreases all.len(),
{
    if all.len() == 0 {
        Seq::<Seq<char>>::empty()
    } else {
        let rest = newly_added(all.drop_last(), existing);
        if existing.contains(all.last()) { rest } else { rest.push(all.last()) }
    }
}

/// The records after each plugin of `ids` is forgotten, in order.
pub open spec fn forgotten_all(v: Seq<LibraryView>, ids: Seq<Seq<char>>) -> Seq<LibraryView>
    decreases ids.len(),
{
    if ids.len() == 0 {
        v
    } else {
        forgotten(forgotten_all(v, ids.drop_last()), ids.last())
    }
}

#[derive(Debug)]
struct LibraryRecord {
    path: String,
    plugin_ids: Vec<String>,
}

spec fn record_view(r: LibraryRecord) -> LibraryView {
    (r.path@, texts(r.plugin_ids@))
}

/// Which plugins each loaded library contributed, by library path.
#[derive(Debug)]
pub struct LibraryPlugins {
    records: Vec<LibraryRecord>,
}

proof fn lemma_ids_of_at(v: Seq<LibraryView>, i: int)
    requires
        distinct_paths(v),
        0 <= i < v.len(),
    ensures
        ids_of(v, v[i].0) == Some(v[i].1),
{
    let p = v[i].0;
    assert(has_path(v, p));
    let j = choose|j: int| 0 <= j < v.len() && #[trigger] v[j].0 == p;
    if j != i {
        if j < i { assert(v[j].0 != v[i].0); } else { assert(v[i].0 != v[j].0); }
    }
}

/// After a plugin is forgotten, no library lists it, no library is left without plugins,
/// every library still recorded was recorded before, and library paths stay distinct.
pub proof fn lemma_forget_plugin(v: Seq<LibraryView>, id: Seq<char>)
    ensures
        forall|j: int| 0 <= j < forgotten(v, id).len() ==> has_path(v, #[trigger] forgotten(v, id)[j].0),
        distinct_paths(v) ==> distinct_paths(forgotten(v, id)),
        forall|j: int| 0 <= j < forgotten(v, id).len() ==>
            (#[trigger] forgotten(v, id)[j]).1.len() > 0 && !forgotten(v, id)[j].1.contains(id),
    decreases v.len(),
{
    if v.len() > 0 {
        let w = v.drop_last();
        lemma_forget_plugin(w, id);
        let rest = forgotten(w, id);
        let kept = without_id(v.last().1, id);
        let pred = other_than(id);
        assert forall|j: int| 0 <= j < rest.len() implies has_path(v, #[trigger] rest[j].0) by {
            assert(has_path(w, rest[j].0));
            let k = choose|k: int| 0 <= k < w.len() && #[trigger] w[k].0 == rest[j].0;
            assert(v[k] == w[k]);
        }
        assert(has_path(v, v.last().0)) by {
            assert(v[v.len() - 1].0 == v.last().0);
        }
        if distinct_paths(v) {
            assert(distinct_paths(w)) by {
                assert forall|a: int, b: int| 0 <= a < b < w.len() implies #[trigger] w[a].0 != #[trigger] w[b].0 by {
                    assert(v[a] == w[a] && v[b] == w[b]);
                }
            }
            assert forall|j: int| 0 <= j < rest.len() implies #[trigger] rest[j].0 != v.last().0 by {
                assert(has_path(w, rest[j].0));
                let k = choose|k: int| 0 <= k < w.len() && #[trigger] w[k].0 == rest[j].0;
                assert(v[k] == w[k]);
                assert(v[k].0 != v[v.len() - 1].0);
            }
        }
        assert forall|x: Seq<char>| kept.contains(x) implies x != id by {
            let k = choose|k: int| 0 <= k < kept.len() && kept[k] == x;
            v.last().1.lemma_filter_pred(pred, k);
        }
    }
}

proof fn lemma_forgotten_holds(v: Seq<LibraryView>, id: Seq<char>, i: int)
    requires
        0 <= i < v.len(),
        without_id(v[i].1, id).len() > 0,
    ensures
        exists|j: int| 0 <= j < forgotten(v, id).len()
            && #[trigger] forgotten(v, id)[j] == (v[i].0, without_id(v[i].1, id)),
    decreases v.len(),
{
    let w = v.drop_last();
    let rest = forgotten(w, id);
    if i < v.len() - 1 {
        assert(w[i] == v[i]);
        lemma_forgotten_holds(w, id, i);
        let j = choose|j: int| 0 <= j < rest.len() && #[trigger] rest[j] == (w[i].0, without_id(w[i].1, id));
        assert(forgotten(v, id)[j] == rest[j]);
    } else {
        assert(v.last() == v[i]);
        let f = forgotten(v, id);
        assert(f[f.len() - 1] == (v[i].0, without_id(v[i].1, id)));
    }
}

/// Forgetting a plugin keeps every other plugin of every library: a library that listed
/// some other plugin stays recorded, listing exactly its plugins other than the forgotten
/// one; a library is dropped only when it listed nothing but the forgotten plugin.
pub proof fn lemma_forget_keeps_others(v: Seq<LibraryView>, id: Seq<char>, i: int)
    requires
        distinct_paths(v),
        0 <= i < v.len(),
    ensures
        (exists|x: Seq<char>| v[i].1.contains(x) && x != id) ==> (
            ids_of(forgotten(v, id), v[i].0) matches Some(ids)
            && forall|x: Seq<char>| #[trigger] ids.contains(x) <==> (v[i].1.contains(x) && x != id)),
        !has_path(forgotten(v, id), v[i].0) ==> forall|x: Seq<char>| v[i].1.contains(x) ==> x == id,
{
    broadcast use vstd::seq_lib::group_filter_ensures;
    let ids = v[i].1;
    let kept = without_id(ids, id);
    let pred = other_than(id);
    assert forall|x: Seq<char>| #[trigger] kept.contains(x) <==> (ids.contains(x) && x != id) by {
        if kept.contains(x) {
            ids.lemma_filter_contains_rev(pred, x);
            let k = choose|k: int| 0 <= k < kept.len() && kept[k] == x;
            ids.lemma_filter_pred(pred, k);
        }
        if ids.contains(x) && x != id {
            let k = choose|k: int| 0 <= k < ids.len() && ids[k] == x;
            ids.lemma_filter_contains(pred, k);
        }
    }
    lemma_forget_plugin(v, id);
    if exists|x: Seq<char>| ids.contains(x) && x != id {
        let x = choose|x: Seq<char>| ids.contains(x) && x != id;
        assert(kept.contains(x));
        lemma_forgotten_holds(v, id, i);
        let f = forgotten(v, id);
        let j = choose|j: int| 0 <= j < f.len() && #[trigger] f[j] == (v[i].0, kept);
        lemma_ids_of_at(f, j);
    }
    if !has_path(forgotten(v, id), v[i].0) {
        assert forall|x: Seq<char>| ids.contains(x) implies x == id by {
            if x != id {
                assert(kept.contains(x));
                lemma_forgotten_holds(v, id, i);
                let f = forgotten(v, id);
                let j = choose|j: int| 0 <= j < f.len() && #[trigger] f[j] == (v[i].0, kept);
                assert(f[j].0 == v[i].0);
            }
        }
    }
}

impl LibraryPlugins {
    #[verifier::type_invariant]
    spec fn well_formed(self) -> bool {
        distinct_paths(self.records@.map_values(|r: LibraryRecord| record_view(r)))
    }

    /// The records, as (library path, contributed plugin ids), oldest first.
    pub closed spec fn view(&self) -> Seq<LibraryView> {
        self.records@.map_values(|r: LibraryRecord| record_view(r))
    }

    /// No library recorded.
    pub fn new() -> (r: Self)
        ensures
            r.view() == Seq::<LibraryView>::empty(),
    {
        let r = LibraryPlugins { records: Vec::new() };
        assert(r.view() =~= Seq::<LibraryView>::empty());
        r
    }

    fn find(&self, path: &str) -> (r: Option<usize>)
        ensures
            r matches Some(i) ==> i < self.view().len() && self.view()[i as int].0 == path@,
            r is None ==> !has_path(self.view(), path@),
    {
        let mut i: usize = 0;
        while i < self.records.len()
            invariant
                i <= self.records@.len(),
                forall|j: int| 0 <= j < i ==> #[trigger] self.view()[j].0 != path@,
            decreases self.records@.len() - i,
        {
            if same_text(self.records[i].path.as_str(), path) {
                return Some(i);
            }
            i = i + 1;
        }
        None
    }

    /// Whether the library is recorded as loaded.
    pub fn is_loaded(&self, path: &str) -> (r: bool)
        ensures
            r == has_path(self.view(), path@),
    {
        self.find(path).is_some()
    }

    /// The ids of the plugins the library contributed; `None` when it is not recorded.
    pub fn plugins_of(&self, path: &str) -> (r: Option<Vec<String>>)
        ensures
            match ids_of(self.view(), path@) {
                Some(ids) => r matches Some(v) && texts(v@) == ids,
                None => r is None,
            },
    {
        proof { use_type_invariant(self); }
        match self.find(path) {
            Some(i) => {
                proof { lemma_ids_of_at(self.view(), i as int); }
                Some(clone_texts(&self.records[i].plugin_ids))
            },
            None => None,
        }
    }

    /// The number of plugins the library contributed (0 when it is not recorded).
    pub fn plugin_count(&self, path: &str) -> (r: usize)
        ensures
            r == match ids_of(self.view(), path@) { Some(ids) => ids.len(), None => 0 },
    {
        proof { use_type_invariant(self); }
        match self.find(path) {
            Some(i) => {
                proof { lemma_ids_of_at(self.view(), i as int); }
                self.records[i].plugin_ids.len()
            },
            None => 0,
        }
    }

    /// The plugins to reload when the library file `changed` has changed on disk: the ids
    /// recorded for every library with the same file name, in record order.
    pub fn reload_targets(&self, changed: &str) -> (r: Vec<String>)
        ensures
            texts(r@) == reload_ids(self.view(), changed@),
    {
        let ghost v = self.view();
        let target = crate::host::path_file_name(changed);
        let mut r: Vec<String> = Vec::new();
        let mut i: usize = 0;
        while i < self.records.len()
            invariant
                v == self.view(),
                v.len() == self.records@.len(),
                i <= self.records@.len(),
                match crate::host::file_name_of(changed@) {
                    Some(n) => target matches Some(x) && x@ == n,
                    None => target is None,
                },
                texts(r@) == reload_ids(v.take(i as int), changed@),
            decreases self.records@.len() - i,
        {
            proof {
                assert(v.take(i + 1).drop_last() =~= v.take(i as int));
                assert(v.take(i + 1).last() == v[i as int]);
                assert(v[i as int] == record_view(self.records@[i as int]));
            }
            let name = crate::host::path_file_name(self.records[i].path.as_str());
            let same = match (&name, &target) {
                (Some(a), Some(b)) => same_text(a.as_str(), b.as_str()),
                (None, None) => true,
                _ => false,
            };
            if same {
                let ids = &self.records[i].plugin_ids;
                let mut j: usize = 0;
                let ghost r0 = texts(r@);
                while j < ids.len()
                    invariant
                        j <= ids@.len(),
                        texts(r@) == r0 + texts(ids@).take(j as int),
                    decreases ids@.len() - j,
                {
                    let ghost before = r@;
                    let c = ids[j].clone();
                    assert(c@ == ids@[j as int]@);
                    r.push(c);
                    assert(texts(r@) =~= texts(before).push(ids@[j as int]@));
                    assert(texts(ids@).take(j + 1) =~= texts(ids@).take(j as int).push(ids@[j as int]@));
                    j = j + 1;
                    assert(texts(r@) =~= r0 + texts(ids@).take(j as int));
                }
                assert(texts(ids@).take(ids@.len() as int) =~= texts(ids@));
            }
            i = i + 1;
        }
        assert(v.take(v.len() as int) =~= v);
        r
    }

    /// The first step of reloading a changed library file: the plugins to unload (see
    /// [`LibraryPlugins::reload_targets`]), each of them forgotten from the records. Once
    /// the library is loaded again, [`LibraryPlugins::record_loaded`] records its plugins.
    pub fn begin_reload(&mut self, changed: &str) -> (r: Vec<String>)
        ensures
            texts(r@) == reload_ids(old(self).view(), changed@),
            final(self).view() == forgotten_all(old(self).view(), reload_ids(old(self).view(), changed@)),
    {
        let targets = self.reload_targets(changed);
        let ghost v0 = self.view();
        let ghost t = texts(targets@);
        let mut i: usize = 0;
        while i < targets.len()
            invariant
                t == texts(targets@),
                i <= targets@.len(),
                self.view() == forgotten_all(v0, t.take(i as int)),
            decreases targets@.len() - i,
        {
            proof {
                assert(t.take(i + 1).drop_last() =~= t.take(i as int));
                assert(t.take(i + 1).last() == targets@[i as int]@);
            }
            self.forget_plugin(targets[i].as_str());
            i = i + 1;
        }
        assert(t.take(targets@.len() as int) =~= t);
        targets
    }

    /// Records the plugins present after loading the library at `path`, replacing what was
    /// recorded for it, and returns those that it did not list before (the newly loaded
    /// ones), in order.
    pub fn record_loaded(&mut self, path: &str, plugin_ids: Vec<String>) -> (r: Vec<String>)
        ensures
            final(self).view() == recorded_library(old(self).view(), path@, texts(plugin_ids@)),
            texts(r@) == newly_added(texts(plugin_ids@), match ids_of(old(self).view(), path@) {
                Some(ids) => ids,
                None => Seq::<Seq<char>>::empty(),
            }),
    {
        let existing: Vec<String> = match self.plugins_of(path) {
            Some(v) => v,
            None => Vec::new(),
        };
        let ghost ex = texts(existing@);
        let ghost all = texts(plugin_ids@);
        assert(ex =~= match ids_of(self.view(), path@) {
            Some(ids) => ids,
            None => Seq::<Seq<char>>::empty(),
        });
        let mut r: Vec<String> = Vec::new();
        let mut i: usize = 0;
        while i < plugin_ids.len()
            invariant
                ex == texts(existing@),
                all == texts(plugin_ids@),
                i <= plugin_ids@.len(),
                texts(r@) == newly_added(all.take(i as int), ex),
            decreases plugin_ids@.len() - i,
        {
            proof {
                assert(all.take(i + 1).drop_last() =~= all.take(i as int));
                assert(all.take(i + 1).last() == plugin_ids@[i as int]@);
            }
            let known = crate::text::contains_text(&existing, plugin_ids[i].as_str());
            proof {
                if known {
                    let k = choose|k: int| 0 <= k < existing@.len() && #[trigger] existing@[k]@ == plugin_ids@[i as int]@;
                    assert(ex[k] == plugin_ids@[i as int]@);
                } else {
                    assert forall|k: int| 0 <= k < ex.len() implies ex[k] != plugin_ids@[i as int]@ by {
                        assert(ex[k] == existing@[k]@);
                    }
                }
            }
            if !known {
                let ghost before = r@;
                r.push(plugin_ids[i].clone());
                assert(texts(r@) =~= texts(before).push(plugin_ids@[i as int]@));
            }
            i = i + 1;
        }
        assert(all.take(plugin_ids@.len() as int) =~= all);
        self.record(path, plugin_ids);
        r
    }

    /// Records the plugins a library contributed, replacing what was recorded for it.
    pub fn record(&mut self, path: &str, plugin_ids: Vec<String>)
        ensures
            final(self).view() == recorded_library(old(self).view(), path@, texts(plugin_ids@)),
    {
        proof { use_type_invariant(&*self); }
        let ghost v = self.view();
        let mut records: Vec<LibraryRecord> = Vec::new();
        let found = self.find(path);
        std::mem::swap(&mut records, &mut self.records);
        let rec = LibraryRecord { path: String::from_str(path), plugin_ids };
        match found {
            Some(i) => {
                proof {
                    lemma_ids_of_at(v, i as int);
                    let j = choose|j: int| 0 <= j < v.len() && #[trigger] v[j].0 == path@;
                    if j != i as int {
                        if j < i { assert(v[j].0 != v[i as int].0); } else { assert(v[i as int].0 != v[j].0); }
                    }
                }
                records.set(i, rec);
            },
            None => {
                records.push(rec);
            },
        }
        proof {
            let nv = records@.map_values(|r: LibraryRecord| record_view(r));
            assert(nv =~= recorded_library(v, path@, texts(plugin_ids@)));
            assert forall|a: int, b: int| 0 <= a < b < nv.len() implies #[trigger] nv[a].0 != #[trigger] nv[b].0 by {
                if b == v.len() {
                    assert(nv[a] == v[a]);
                } else if found is Some && (a == found->0 || b == found->0) {
                    let i = found->0 as int;
                    if a == i { assert(nv[b] == v[b]); assert(v[i].0 != v[b].0); }
                    else { assert(nv[a] == v[a]); assert(v[a].0 != v[i].0); }
                } else {
                    assert(nv[a] == v[a] && nv[b] == v[b]);
                }
            }
        }
        self.records = records;
    }

    /// Forgets a plugin: its id is removed from every library's list, and the libraries
    /// left with no plugin are dropped.
    pub fn forget_plugin(&mut self, id: &str)
        ensures
            final(self).view() == forgotten(old(self).view(), id@),
    {
        proof { use_type_invariant(&*self); }
        let ghost v = self.view();
        let mut records: Vec<LibraryRecord> = Vec::new();
        std::mem::swap(&mut records, &mut self.records);
        let mut out: Vec<LibraryRecord> = Vec::new();
        let mut i: usize = 0;
        while i < records.len()
            invariant
                v == records@.map_values(|r: LibraryRecord| record_view(r)),
                i <= records@.len(),
                out@.map_values(|r: LibraryRecord| record_view(r)) == forgotten(v.take(i as int), id@),
            decreases records@.len() - i,
        {
            let kept = remove_id(&records[i].plugin_ids, id);
            proof {
                assert(v.take(i + 1).drop_last() =~= v.take(i as int));
                assert(v.take(i + 1).last() == v[i as int]);
            }
            if kept.len() > 0 {
                out.push(LibraryRecord { path: records[i].path.clone(), plugin_ids: kept });
                proof {
                    assert(out@.map_values(|r: LibraryRecord| record_view(r))
                        =~= forgotten(v.take(i as int), id@).push((v[i as int].0, without_id(v[i as int].1, id@))));
                }
            }
            i = i + 1;
        }
        proof {
            assert(v.take(records@.len() as int) =~= v);
            lemma_forget_plugin(v, id@);
        }
        self.records = out;
    }

    /// Forgets every library.
    pub fn clear(&mut self)
        ensures
            final(self).view() == Seq::<LibraryView>::empty(),
    {
        self.records = Vec::new();
        assert(self.view() =~= Seq::<LibraryView>::empty());
    }
}

/// The ids of `ids` other than `id`, in order.
fn remove_id(ids: &Vec<String>, id: &str) -> (r: Vec<String>)
    ensures
        texts(r@) == without_id(texts(ids@), id@),
{
    let ghost t = texts(ids@);
    let ghost pred = other_than(id@);
    let mut r: Vec<String> = Vec::new();
    let mut i: usize = 0;
    while i < ids.len()
        invariant
            t == texts(ids@),
            pred == other_than(id@),
            i <= ids@.len(),
            texts(r@) == t.take(i as int).filter(pred),
        decreases ids@.len() - i,
    {
        let ghost w = t.take(i + 1);
        proof {
            assert(w.drop_last() =~= t.take(i as int));
            assert(w.last() == ids@[i as int]@);
        }
        if !same_text(ids[i].as_str(), id) {
            r.push(ids[i].clone());
            proof { assert(texts(r@) =~= t.take(i as int).filter(pred).push(ids@[i as int]@)); }
        }
        proof {
            assert(w.filter(pred) == (if pred(w.last()) {
                w.drop_last().filter(pred).push(w.last())
            } else {
                w.drop_last().filter(pred)
            })) by {
                reveal(Seq::filter);
            }
        }
        i = i + 1;
    }
    proof { assert(t.take(ids@.len() as int) =~= t); }
    r
}

/// Recording a library's plugins and then asking for them gives back exactly what was
/// recorded, keeps library paths distinct, and leaves every other library as it was.
pub proof fn lemma_record_then_lookup(v: Seq<LibraryView>, path: Seq<char>, ids: Seq<Seq<char>>, other: Seq<char>)
    requires
        distinct_paths(v),
        other != path,
    ensures
        distinct_paths(recorded_library(v, path, ids)),
        ids_of(recorded_library(v, path, ids), path) == Some(ids),
        ids_of(recorded_library(v, path, ids), other) == ids_of(v, other),
{
    let w = recorded_library(v, path, ids);
    let i = if has_path(v, path) { choose|i: int| 0 <= i < v.len() && #[trigger] v[i].0 == path } else { v.len() as int };
    assert(w[i] == (path, ids));
    assert forall|a: int, b: int| 0 <= a < b < w.len() implies #[trigger] w[a].0 != #[trigger] w[b].0 by {
        if a == i {
            if b < v.len() { assert(w[b] == v[b]); if has_path(v, path) { assert(v[i].0 != v[b].0); } }
        } else if b == i {
            assert(w[a] == v[a]);
            if has_path(v, path) { assert(v[a].0 != v[i].0); }
        } else {
            assert(w[a] == v[a] && w[b] == v[b]);
        }
    }
    lemma_ids_of_at(w, i);
    if has_path(v, other) {
        let j = choose|j: int| 0 <= j < v.len() && #[trigger] v[j].0 == other;
        lemma_ids_of_at(v, j);
        assert(w[j] == v[j]);
        lemma_ids_of_at(w, j);
    } else {
        assert forall|j: int| 0 <= j < w.len() implies #[trigger] w[j].0 != other by {
            if j != i { assert(w[j] == v[j]); }
        }
    }
}

} // verus!
