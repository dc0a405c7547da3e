use vstd::prelude::*;

use crate::adapter::{
    activated_from, deactivated, deactivated_from, discarded_outcome, NativeAdapter, NativeCall, NativeLibrary,
};
use crate::error::{status_outcome, PluginError};

verus! {

/// Whether `i` is the position of the first adapter in `s` whose name is `name`.
pub open spec fn is_first_named<L: NativeLibrary>(
    s: Seq<NativeAdapter<L>>,
    name: Seq<char>,
    i: int,
) -> bool {
    &&& 0 <= i < s.len()
    &&& s[i].name_view() == name
    &&& forall|j: int| 0 <= j < i ==> s[j].name_view() != name
}

/// The position of the first adapter in `s` whose name is `name`, if any.
pub open spec fn first_named<L: NativeLibrary>(s: Seq<NativeAdapter<L>>, name: Seq<char>) -> Option<
    int,
> {
    if exists|i: int| is_first_named(s, name, i) {
        Some(choose|i: int| is_first_named(s, name, i))
    } else {
        None
    }
}

/// At most one position is the first one carrying a name.
proof fn lemma_first_named_unique<L: NativeLibrary>(
    s: Seq<NativeAdapter<L>>,
    name: Seq<char>,
    i: int,
    j: int,
)
    requires
        is_first_named(s, name, i),
        is_first_named(s, name, j),
    ensures
        i == j,
{
    if i < j {
        assert(s[i].name_view() != name);
    }
    if j < i {
        assert(s[j].name_view() != name);
    }
}

/// A name carried at position `k` is carried first at some position up to `k`.
proof fn lemma_first_named_exists<L: NativeLibrary>(s: Seq<NativeAdapter<L>>, name: Seq<char>, k: int)
    requires
        0 <= k < s.len(),
        s[k].name_view() == name,
    ensures
        first_named(s, name) matches Some(i) && is_first_named(s, name, i) && i <= k,
    decreases k,
{
    if exists|j: int| 0 <= j < k && s[j].name_view() == name {
        let j = choose|j: int| 0 <= j < k && s[j].name_view() == name;
        lemma_first_named_exists(s, name, j);
    } else {
        assert(is_first_named(s, name, k));
        let i = choose|i: int| is_first_named(s, name, i);
        lemma_first_named_unique(s, name, i, k);
    }
}

/// A plugin appended to the registry is found by a lookup of its name, and the
/// adapter found there reports that name.
pub proof fn lemma_appended_is_found<L: NativeLibrary>(
    before: Seq<NativeAdapter<L>>,
    added: NativeAdapter<L>,
)
    ensures
        first_named(before.push(added), added.name_view()) matches Some(i) && 0 <= i < before.len()
            + 1 && before.push(added)[i].name_view() == added.name_view(),
{
    let after = before.push(added);
    lemma_first_named_exists(after, added.name_view(), before.len() as int);
}

/// Removing position `index` keeps the adapters before it where they were and
/// moves each one after it down by one position.
pub proof fn lemma_removal_shifts_later<L: NativeLibrary>(s: Seq<NativeAdapter<L>>, index: int)
    requires
        0 <= index < s.len(),
    ensures
        s.remove(index).len() == s.len() - 1,
        forall|k: int| 0 <= k < index ==> #[trigger] s.remove(index)[k] == s[k],
        forall|k: int| index <= k < s.len() - 1 ==> #[trigger] s.remove(index)[k] == s[k + 1],
{
}

/// Of two adapters that report the same name, a lookup of that name picks the
/// earlier one, and removing what it picks leaves the later one registered.
pub proof fn lemma_same_name_first_removed<L: NativeLibrary>(
    s: Seq<NativeAdapter<L>>,
    first: int,
    second: int,
)
    requires
        0 <= first < second < s.len(),
        s[first].name_view() == s[second].name_view(),
        forall|k: int| 0 <= k < first ==> s[k].name_view() != s[first].name_view(),
    ensures
        first_named(s, s[first].name_view()) == Some(first),
        s.remove(first).len() == s.len() - 1,
        s.remove(first)[second - 1] == s[second],
{
    let name = s[first].name_view();
    assert(is_first_named(s, name, first));
    lemma_first_named_exists(s, name, first);
    let i = first_named(s, name)->0;
    lemma_first_named_unique(s, name, i, first);
}

/// The ordered collection of active plugin adapters. Insertion order gives the
/// indices that `unload_at` takes; names need not be unique.
///
/// The ghost list of retired adapters keeps, in order, every adapter that left
/// the registry or was refused admission, in the state it was released in.
pub struct PluginManager<L> {
    plugins: Vec<NativeAdapter<L>>,
    retired: Ghost<Seq<NativeAdapter<L>>>,
}

/// `after` is `before` with the adapter at `index` removed from the registry,
/// deactivated once and retired, and `r` is the outcome of that deactivation.
pub open spec fn removed_at<L: NativeLibrary>(
    before: PluginManager<L>,
    after: PluginManager<L>,
    index: int,
    r: Result<(), PluginError>,
) -> bool {
    exists|d: NativeAdapter<L>, code: i32|
        {
            &&& after.adapters() == before.adapters().remove(index)
            &&& after.retired() == before.retired().push(d)
            &&& deactivated_from(d, before.adapters()[index], code)
            &&& r == status_outcome(code)
        }
}

/// The failures that were discarded while releasing `ds`: for each adapter, in
/// order, the code of its last call when that call was a failed deactivation.
pub open spec fn discarded<L: NativeLibrary>(ds: Seq<NativeAdapter<L>>) -> Seq<PluginError>
    decreases ds.len(),
{
    if ds.len() == 0 {
        Seq::empty()
    } else {
        let rest = discarded(ds.drop_last());
        let call = ds.last().calls().last();
        if call is Deactivate && call->Deactivate_0 != 0 {
            rest.push(PluginError::NativeFailure(call->Deactivate_0))
        } else {
            rest
        }
    }
}

impl<L: NativeLibrary> PluginManager<L> {
    /// The adapters, in the order in which they were loaded.
    pub closed spec fn adapters(&self) -> Seq<NativeAdapter<L>> {
        self.plugins@
    }

    /// The adapters released so far, in the state in which they were released.
    pub closed spec fn retired(&self) -> Seq<NativeAdapter<L>> {
        self.retired@
    }

    /// Every registered adapter is active.
    pub open spec fn well_formed(&self) -> bool {
        forall|i: int| 0 <= i < self.adapters().len() ==> #[trigger] self.adapters()[i].is_active()
    }

    /// An empty registry.
    pub fn new() -> (r: Self)
        ensures
            r.adapters() == Seq::<NativeAdapter<L>>::empty(),
            r.retired() == Seq::<NativeAdapter<L>>::empty(),
            r.well_formed(),
    {
        PluginManager { plugins: Vec::new(), retired: Ghost(Seq::empty()) }
    }

    /// The number of registered adapters.
    pub fn len(&self) -> (r: usize)
        ensures
            r == self.adapters().len(),
    {
        self.plugins.len()
    }

    /// The adapter at `index`, if there is one.
    pub fn get(&self, index: usize) -> (r: Option<&NativeAdapter<L>>)
        ensures
            index < self.adapters().len() ==> r == Some(&self.adapters()[index as int]),
            index >= self.adapters().len() ==> r is None,
    {
        if index < self.plugins.len() {
            Some(&self.plugins[index])
        } else {
            None
        }
    }

    /// The names of the registered adapters, in order.
    pub fn names(&self) -> (r: Vec<String>)
        ensures
            r@.len() == self.adapters().len(),
            forall|i: int| 0 <= i < r@.len() ==> #[trigger] r@[i]@ == self.adapters()[i].name_view(),
    {
        let mut names: Vec<String> = Vec::new();
        let mut i: usize = 0;
        while i < self.plugins.len()
            invariant
                i <= self.plugins@.len(),
                names@.len() == i,
                forall|k: int| 0 <= k < i ==> #[trigger] names@[k]@ == self.plugins@[k].name_view(),
            decreases self.plugins@.len() - i,
        {
            names.push(self.plugins[i].name());
            i = i + 1;
        }
        names
    }

    /// The position of the first adapter named `name`, in insertion order.
    pub fn position(&self, name: &str) -> (r: Option<usize>)
        ensures
            r matches Some(i) ==> i < self.adapters().len() && first_named(self.adapters(), name@)
                == Some(i as int),
            r is None ==> first_named(self.adapters(), name@) is None,
    {
        let mut i: usize = 0;
        while i < self.plugins.len()
            invariant
                i <= self.plugins@.len(),
                forall|k: int| 0 <= k < i ==> #[trigger] self.plugins@[k].name_view() != name@,
            decreases self.plugins@.len() - i,
        {
            let candidate = self.plugins[i].name();
            if candidate == name.to_owned() {
                proof {
                    let s = self.plugins@;
                    assert(is_first_named(s, name@, i as int));
                    let c = choose|j: int| is_first_named(s, name@, j);
                    lemma_first_named_unique(s, name@, c, i as int);
                }
                return Some(i);
            }
            i = i + 1;
        }
        None
    }

    /// Loads the plugin library at `path` and activates it.
    ///
    /// Construction failures are returned unchanged. The adapter is appended
    /// only when its activation succeeds; when activation fails, its error is
    /// returned, the adapter is torn down and the registry is left as it was.
    pub fn load(&mut self, path: &str) -> (r: Result<(), PluginError>)
        requires
            old(self).well_formed(),
        ensures
            final(self).well_formed(),
            r matches Err(e) ==> e is LoadFailure || e is SymbolResolutionFailure || e is NativeFailure,
            r matches Err(e) && !(e is NativeFailure) ==> final(self).adapters() == old(
                self,
            ).adapters() && final(self).retired() == old(self).retired(),
            r is Ok ==> final(self).retired() == old(self).retired() && exists|a: NativeAdapter<L>|
                {
                    &&& final(self).adapters() == old(self).adapters().push(a)
                    &&& a.is_active()
                    &&& a.calls() == seq![
                        NativeCall::Initialize,
                        NativeCall::Name,
                        NativeCall::Activate(0),
                    ]
                },
            r matches Err(PluginError::NativeFailure(code)) ==> final(self).adapters() == old(
                self,
            ).adapters() && exists|d: NativeAdapter<L>|
                {
                    &&& final(self).retired() == old(self).retired().push(d)
                    &&& !d.is_active()
                    &&& d.calls().len() == 4
                    &&& d.calls().drop_last() == seq![
                        NativeCall::Initialize,
                        NativeCall::Name,
                        NativeCall::Activate(code),
                    ]
                    &&& d.calls().last() is Deactivate
                },
    {
        let adapter = match NativeAdapter::<L>::build(path) {
            Ok(adapter) => adapter,
            Err(e) => return Err(e),
        };
        let ghost built = adapter;
        let r = self.activate_and_insert(adapter);
        proof {
            let (a, code) = choose|a: NativeAdapter<L>, code: i32|
                {
                    &&& activated_from(a, built, code)
                    &&& r == status_outcome(code)
                    &&& code == 0 ==> self.adapters() == old(self).adapters().push(a)
                        && self.retired() == old(self).retired()
                    &&& code != 0 ==> self.adapters() == old(self).adapters() && exists|
                        d: NativeAdapter<L>,
                        undo: i32,
                    | deactivated_from(d, a, undo) && self.retired() == old(self).retired().push(d)
                };
            assert(r is Ok ==> exists|a: NativeAdapter<L>|
                {
                    &&& self.adapters() == old(self).adapters().push(a)
                    &&& a.is_active()
                    &&& a.calls() == seq![
                        NativeCall::Initialize,
                        NativeCall::Name,
                        NativeCall::Activate(0),
                    ]
                }) by {
                if code == 0 {
                    assert(a.calls() =~= seq![
                        NativeCall::Initialize,
                        NativeCall::Name,
                        NativeCall::Activate(0),
                    ]);
                }
            }
            if code != 0 {
                let (d, undo) = choose|d: NativeAdapter<L>, undo: i32|
                    deactivated_from(d, a, undo) && self.retired() == old(self).retired().push(d);
                assert(d.calls().drop_last() =~= seq![
                    NativeCall::Initialize,
                    NativeCall::Name,
                    NativeCall::Activate(code),
                ]);
                assert(r == Err::<(), PluginError>(PluginError::NativeFailure(code)));
            }
        }
        r
    }

    /// Activates a freshly built adapter and appends it when activation succeeds.
    ///
    /// When activation fails, the adapter, which stays marked active, is torn
    /// down at once (its deactivation export called, whatever it returns) and
    /// retired without ever being registered; the activation error is returned.
    pub fn activate_and_insert(&mut self, adapter: NativeAdapter<L>) -> (r: Result<(), PluginError>)
        requires
            old(self).well_formed(),
            !adapter.is_active(),
        ensures
            final(self).well_formed(),
            exists|a: NativeAdapter<L>, code: i32|
                {
                    &&& activated_from(a, adapter, code)
                    &&& r == status_outcome(code)
                    &&& code == 0 ==> final(self).adapters() == old(self).adapters().push(a)
                        && final(self).retired() == old(self).retired()
                    &&& code != 0 ==> final(self).adapters() == old(self).adapters() && exists|
                        d: NativeAdapter<L>,
                        undo: i32,
                    |
                        deactivated_from(d, a, undo) && final(self).retired() == old(
                            self,
                        ).retired().push(d)
                },
    {
        let mut adapter = adapter;
        let ghost before = adapter;
        let result = adapter.on_load();
        let ghost code = choose|code: i32|
            adapter.calls() == before.calls().push(NativeCall::Activate(code)) && result
                == status_outcome(code);
        let ghost a = adapter;
        assert(activated_from(a, before, code));
        match result {
            Ok(()) => {
                self.plugins.push(adapter);
                assert(self.well_formed()) by {
                    assert forall|i: int| 0 <= i < self.adapters().len() implies #[trigger] self.adapters()[i].is_active() by {
                        if i < old(self).adapters().len() {
                            assert(self.adapters()[i] == old(self).adapters()[i]);
                        }
                    }
                }
                Ok(())
            },
            Err(e) => {
                let _ = adapter.teardown();
                let ghost undo = choose|undo: i32|
                    adapter.calls() == a.calls().push(NativeCall::Deactivate(undo));
                assert(deactivated_from(adapter, a, undo));
                self.retired = Ghost(self.retired@.push(adapter));
                Err(e)
            },
        }
    }

    /// Unloads the first adapter, in insertion order, that reports `name`.
    ///
    /// When none does, gives `UnknownPlugin(name)` and leaves the registry as it
    /// was; otherwise behaves as `unload_at` at that position.
    pub fn unload(&mut self, name: &str) -> (r: Result<(), PluginError>)
        requires
            old(self).well_formed(),
        ensures
            final(self).well_formed(),
            first_named(old(self).adapters(), name@) is None ==> {
                &&& r matches Err(PluginError::UnknownPlugin(n)) && n@ == name@
                &&& final(self).adapters() == old(self).adapters()
                &&& final(self).retired() == old(self).retired()
            },
            first_named(old(self).adapters(), name@) matches Some(i) ==> removed_at(
                *old(self),
                *final(self),
                i,
                r,
            ),
    {
        match self.position(name) {
            Some(i) => {
                let r = self.unload_at(i);
                r
            },
            None => Err(PluginError::UnknownPlugin(name.to_owned())),
        }
    }

    /// Removes the adapter at `index`, then deactivates it.
    ///
    /// An index past the end gives `IndexOutOfRange` and leaves the registry as
    /// it was. Otherwise the removal stands whatever the deactivation returns:
    /// the removed adapter's deactivation export is called once, its status code
    /// decides the result, and the adapter is retired inactive.
    pub fn unload_at(&mut self, index: usize) -> (r: Result<(), PluginError>)
        requires
            old(self).well_formed(),
        ensures
            final(self).well_formed(),
            index >= old(self).adapters().len() ==> {
                &&& r == Err::<(), PluginError>(PluginError::IndexOutOfRange)
                &&& final(self).adapters() == old(self).adapters()
                &&& final(self).retired() == old(self).retired()
            },
            index < old(self).adapters().len() ==> removed_at(
                *old(self),
                *final(self),
                index as int,
                r,
            ),
    {
        if index >= self.plugins.len() {
            return Err(PluginError::IndexOutOfRange);
        }
        let mut adapter = self.plugins.remove(index);
        assert(self.well_formed()) by {
            assert forall|i: int| 0 <= i < self.adapters().len() implies #[trigger] self.adapters()[i].is_active() by {
                if i < index {
                    assert(self.adapters()[i] == old(self).adapters()[i]);
                } else {
                    assert(self.adapters()[i] == old(self).adapters()[i + 1]);
                }
            }
        }
        let ghost before = adapter;
        let result = adapter.on_unload();
        let ghost code = choose|code: i32|
            adapter.calls() == before.calls().push(NativeCall::Deactivate(code)) && result
                == status_outcome(code);
        assert(deactivated_from(adapter, before, code));
        self.retired = Ghost(self.retired@.push(adapter));
        result
    }

    /// Tears the registry down: every adapter, in insertion order, is deactivated
    /// best effort and retired, leaving the registry empty. The deactivation
    /// failures that nobody can act on any more are handed back for diagnostics,
    /// in the same order.
    pub fn close(&mut self) -> (r: Vec<PluginError>)
        requires
            old(self).well_formed(),
        ensures
            final(self).well_formed(),
            final(self).adapters() == Seq::<NativeAdapter<L>>::empty(),
            final(self).retired().len() == old(self).retired().len() + old(self).adapters().len(),
            final(self).retired().subrange(0, old(self).retired().len() as int) == old(
                self,
            ).retired(),
            forall|i: int|
                0 <= i < old(self).adapters().len() ==> deactivated(
                    #[trigger] final(self).retired()[old(self).retired().len() + i],
                    old(self).adapters()[i],
                ),
            r@ == discarded(
                final(self).retired().subrange(
                    old(self).retired().len() as int,
                    final(self).retired().len() as int,
                ),
            ),
    {
        let ghost start = self.retired@.len();
        let ghost all = self.plugins@;
        let mut failures: Vec<PluginError> = Vec::new();
        while self.plugins.len() > 0
            invariant
                self.well_formed(),
                start <= self.retired@.len() <= start + all.len(),
                self.retired@.subrange(0, start as int) == old(self).retired(),
                start == old(self).retired().len(),
                all == old(self).adapters(),
                self.plugins@ == all.subrange(self.retired@.len() - start, all.len() as int),
                forall|i: int|
                    0 <= i < self.retired@.len() - start ==> deactivated(
                        #[trigger] self.retired@[start + i],
                        all[i],
                    ),
                failures@ == discarded(self.retired@.subrange(start as int, self.retired@.len() as int)),
            decreases self.plugins@.len(),
        {
            let ghost done = self.retired@;
            let ghost pre = *self;
            assert(pre.adapters()[0].is_active());
            let mut adapter = self.plugins.remove(0);
            assert(self.well_formed()) by {
                assert forall|i: int| 0 <= i < self.adapters().len() implies #[trigger] self.adapters()[i].is_active() by {
                    assert(self.adapters()[i] == pre.adapters()[i + 1]);
                    assert(pre.adapters()[i + 1].is_active());
                }
            }
            assert(adapter.is_active());
            let ghost before = adapter;
            let dropped = adapter.teardown();
            let ghost code = choose|code: i32|
                adapter.calls() == before.calls().push(NativeCall::Deactivate(code)) && dropped
                    == discarded_outcome(code);
            assert(deactivated_from(adapter, before, code));
            match dropped {
                Some(e) => failures.push(e),
                None => {},
            }
            self.retired = Ghost(self.retired@.push(adapter));
            proof {
                let ds = self.retired@.subrange(start as int, self.retired@.len() as int);
                assert(ds.drop_last() =~= done.subrange(start as int, done.len() as int));
                assert(ds.last() == adapter);
                assert(self.retired@.subrange(0, start as int) =~= done.subrange(0, start as int));
                assert(self.plugins@ =~= all.subrange(self.retired@.len() - start, all.len() as int));
                assert(before == all[done.len() - start]);
                assert forall|i: int|
                    0 <= i < self.retired@.len() - start implies deactivated(
                        #[trigger] self.retired@[start + i],
                        all[i],
                    ) by {
                    if i < done.len() - start {
                        assert(self.retired@[start + i] == done[start + i]);
                    } else {
                        assert(deactivated_from(self.retired@[start + i], all[i], code));
                    }
                }
            }
        }
        assert(self.plugins@.len() == all.len() - (self.retired@.len() - start));
        failures
    }
}

} // verus!
