use vstd::prelude::*;

use crate::error::{status_outcome, status_result, Export, PluginError};

verus! {

/// The foreign side of one plugin: a mapped shared library and the opaque state
/// pointer that its initializer produced.
///
/// Implementations make the native calls; every decision about when to make
/// them, and what their results mean, is taken by `NativeAdapter`. Nothing is
/// assumed of what these methods return.
pub trait NativeLibrary: Sized {
    /// Maps the shared library at `path`; an error carries the loader's message.
    fn open(path: &str) -> Result<Self, String>;

    /// Looks up the export by its exact symbol name; `true` when it is present.
    fn resolve(&mut self, export: Export) -> bool;

    /// Calls the initializer once and keeps the state pointer it returns,
    /// behind a lock that serializes every later native call using it.
    fn initialize(&mut self);

    /// Calls the name accessor and copies the string it returns.
    fn read_name(&mut self) -> String;

    /// Calls the activation export with the state pointer, under the lock.
    fn activate(&mut self) -> i32;

    /// Calls the deactivation export with the state pointer, under the lock.
    fn deactivate(&mut self) -> i32;
}

/// The uniform capability surface of a plugin: a name, and the transitions
/// between inactive and active.
pub trait Plugin {
    /// The plugin's identifying name.
    fn name(&self) -> String;

    /// Moves the plugin from inactive to active; a plugin with nothing to do
    /// there succeeds.
    fn on_load(&mut self) -> Result<(), PluginError> {
        Ok(())
    }

    /// Moves the plugin from active to inactive; a plugin with nothing to do
    /// there succeeds.
    fn on_unload(&mut self) -> Result<(), PluginError> {
        Ok(())
    }
}

/// One call into a plugin library's exports, as an adapter records it; the
/// lifecycle calls carry the status code they returned.
#[derive(Clone, Copy, Debug, PartialEq, Eq, Structural)]
pub enum NativeCall {
    /// The initializer was called.
    Initialize,
    /// The name accessor was called.
    Name,
    /// The activation export was called and returned this code.
    Activate(i32),
    /// The deactivation export was called and returned this code.
    Deactivate(i32),
}

/// What tearing down reports for a deactivation that returned `code`: nothing
/// on success, else the failure that was discarded.
pub open spec fn discarded_outcome(code: i32) -> Option<PluginError> {
    if code == 0 {
        None
    } else {
        Some(PluginError::NativeFailure(code))
    }
}

/// The first of the four required exports, in the order name, initializer,
/// activation, deactivation, whose lookup failed; `None` when all were found.
pub open spec fn first_missing(name: bool, init: bool, on_load: bool, on_unload: bool) -> Option<
    Export,
> {
    if !name {
        Some(Export::Name)
    } else if !init {
        Some(Export::Initialize)
    } else if !on_load {
        Some(Export::OnLoad)
    } else if !on_unload {
        Some(Export::OnUnload)
    } else {
        None
    }
}

/// Decides whether a library may be adopted, from the outcome of looking up each
/// of its four required exports.
pub fn check_exports(name: bool, init: bool, on_load: bool, on_unload: bool) -> (r: Result<
    (),
    PluginError,
>)
    ensures
        r is Ok <==> (name && init && on_load && on_unload),
        r is Err ==> r == Err::<(), PluginError>(
            PluginError::SymbolResolutionFailure(first_missing(name, init, on_load, on_unload)->0),
        ),
{
    if !name {
        Err(PluginError::SymbolResolutionFailure(Export::Name))
    } else if !init {
        Err(PluginError::SymbolResolutionFailure(Export::Initialize))
    } else if !on_load {
        Err(PluginError::SymbolResolutionFailure(Export::OnLoad))
    } else if !on_unload {
        Err(PluginError::SymbolResolutionFailure(Export::OnUnload))
    } else {
        Ok(())
    }
}

/// A loaded plugin library behind the uniform `{name, on_load, on_unload}` surface.
///
/// The ghost log records, in order, every call that this adapter has made into
/// the library's exports.
pub struct NativeAdapter<L> {
    library: L,
    name: String,
    active: bool,
    calls: Ghost<Seq<NativeCall>>,
}

impl<L: NativeLibrary> NativeAdapter<L> {
    /// The display name copied out of the library when it was loaded.
    pub closed spec fn name_view(&self) -> Seq<char> {
        self.name@
    }

    /// Whether the plugin is active.
    pub closed spec fn is_active(&self) -> bool {
        self.active
    }

    /// The library behind the adapter.
    pub closed spec fn library_view(&self) -> L {
        self.library
    }

    /// The calls made into the library's exports so far, oldest first.
    pub closed spec fn calls(&self) -> Seq<NativeCall> {
        self.calls@
    }

    /// Adopts a mapped library from the outcome of looking up each of its four
    /// required exports.
    ///
    /// When all four were found, the initializer and then the name accessor are
    /// called once each, and the adapter starts inactive under the name copied
    /// out. Otherwise the first missing export is reported and the library is
    /// handed back untouched: no export of it has been called.
    pub fn from_resolved(
        library: L,
        name: bool,
        init: bool,
        on_load: bool,
        on_unload: bool,
    ) -> (r: Result<Self, (PluginError, L)>)
        ensures
            r is Ok <==> (name && init && on_load && on_unload),
            r matches Ok(a) ==> !a.is_active() && a.calls() == seq![
                NativeCall::Initialize,
                NativeCall::Name,
            ],
            r matches Err((e, back)) ==> back == library && e == PluginError::SymbolResolutionFailure(
                first_missing(name, init, on_load, on_unload)->0,
            ),
    {
        match check_exports(name, init, on_load, on_unload) {
            Ok(()) => {},
            Err(e) => return Err((e, library)),
        }
        let mut library = library;
        library.initialize();
        let name = library.read_name();
        let ghost log = seq![NativeCall::Initialize, NativeCall::Name];
        Ok(NativeAdapter {
            library,
            name,
            active: false,
            calls: Ghost(log),
        })
    }

    /// Opens the library at `path`, resolves its four exports, then calls its
    /// initializer and its name accessor once each.
    ///
    /// A library that cannot be mapped gives `LoadFailure`; one that lacks an
    /// export gives `SymbolResolutionFailure` (see `from_resolved`), and neither
    /// the initializer nor the name accessor is then called.
    pub fn build(path: &str) -> (r: Result<Self, PluginError>)
        ensures
            r matches Ok(a) ==> !a.is_active() && a.calls() == seq![
                NativeCall::Initialize,
                NativeCall::Name,
            ],
            r matches Err(e) ==> e is LoadFailure || e is SymbolResolutionFailure,
    {
        let mut library = match L::open(path) {
            Ok(library) => library,
            Err(message) => return Err(PluginError::LoadFailure(message)),
        };
        let name_found = library.resolve(Export::Name);
        let init_found = library.resolve(Export::Initialize);
        let on_load_found = library.resolve(Export::OnLoad);
        let on_unload_found = library.resolve(Export::OnUnload);
        match Self::from_resolved(library, name_found, init_found, on_load_found, on_unload_found) {
            Ok(adapter) => Ok(adapter),
            Err((e, _library)) => Err(e),
        }
    }

    /// The display name.
    pub fn name(&self) -> (r: String)
        ensures
            r@ == self.name_view(),
    {
        self.name.clone()
    }

    /// The library behind the adapter.
    pub fn library(&self) -> (r: &L)
        ensures
            *r == self.library_view(),
    {
        &self.library
    }

    /// Whether the plugin is active.
    pub fn active(&self) -> (r: bool)
        ensures
            r == self.is_active(),
    {
        self.active
    }

    /// Activates the plugin.
    ///
    /// An active adapter gives `AlreadyActive` and is left as it was, without a
    /// native call. Otherwise the adapter is marked active and the native
    /// activation export is called once; its status code decides the result, and
    /// the adapter stays marked active even when the code is non-zero.
    pub fn on_load(&mut self) -> (r: Result<(), PluginError>)
        ensures
            old(self).is_active() ==> r == Err::<(), PluginError>(PluginError::AlreadyActive)
                && *final(self) == *old(self),
            !old(self).is_active() ==> exists|code: i32|
                {
                    &&& final(self).calls() == old(self).calls().push(NativeCall::Activate(code))
                    &&& r == status_outcome(code)
                    &&& final(self).is_active()
                    &&& final(self).name_view() == old(self).name_view()
                },
    {
        if self.active {
            return Err(PluginError::AlreadyActive);
        }
        self.active = true;
        let code = self.library.activate();
        self.calls = Ghost(self.calls@.push(NativeCall::Activate(code)));
        status_result(code)
    }

    /// Deactivates the plugin.
    ///
    /// An inactive adapter gives `NotActive` and is left as it was, without a
    /// native call. Otherwise the adapter is marked inactive first, then the
    /// native deactivation export is called once; its status code decides the
    /// result, and the adapter stays inactive whatever the code.
    pub fn on_unload(&mut self) -> (r: Result<(), PluginError>)
        ensures
            !old(self).is_active() ==> r == Err::<(), PluginError>(PluginError::NotActive)
                && *final(self) == *old(self),
            old(self).is_active() ==> exists|code: i32|
                {
                    &&& final(self).calls() == old(self).calls().push(NativeCall::Deactivate(code))
                    &&& r == status_outcome(code)
                    &&& !final(self).is_active()
                    &&& final(self).name_view() == old(self).name_view()
                },
    {
        if !self.active {
            return Err(PluginError::NotActive);
        }
        self.active = false;
        let code = self.library.deactivate();
        self.calls = Ghost(self.calls@.push(NativeCall::Deactivate(code)));
        status_result(code)
    }

    /// Readies the adapter for release: one that is still active is deactivated,
    /// best effort. The failure of that deactivation, which no caller could act
    /// on, is handed back for diagnostics; an inactive adapter is left alone.
    pub fn teardown(&mut self) -> (r: Option<PluginError>)
        ensures
            !old(self).is_active() ==> r is None && *final(self) == *old(self),
            old(self).is_active() ==> exists|code: i32|
                {
                    &&& final(self).calls() == old(self).calls().push(NativeCall::Deactivate(code))
                    &&& r == discarded_outcome(code)
                    &&& !final(self).is_active()
                    &&& final(self).name_view() == old(self).name_view()
                },
    {
        if self.active {
            let ghost before = *self;
            let result = self.on_unload();
            let ghost code = choose|code: i32|
                self.calls() == before.calls().push(NativeCall::Deactivate(code)) && result
                    == status_outcome(code);
            let dropped = match result {
                Ok(()) => None,
                Err(e) => Some(e),
            };
            assert(dropped == discarded_outcome(code));
            dropped
        } else {
            None
        }
    }
}

/// `after` is `before` once its activation export has been called and returned
/// `code`: active, under the same name, with that call appended to its log.
pub open spec fn activated_from<L: NativeLibrary>(
    after: NativeAdapter<L>,
    before: NativeAdapter<L>,
    code: i32,
) -> bool {
    &&& after.is_active()
    &&& after.name_view() == before.name_view()
    &&& after.calls() == before.calls().push(NativeCall::Activate(code))
}

/// `after` is `before` once its deactivation export has been called and returned
/// `code`: inactive, under the same name, with that call appended to its log.
pub open spec fn deactivated_from<L: NativeLibrary>(
    after: NativeAdapter<L>,
    before: NativeAdapter<L>,
    code: i32,
) -> bool {
    &&& !after.is_active()
    &&& after.name_view() == before.name_view()
    &&& after.calls() == before.calls().push(NativeCall::Deactivate(code))
}

/// `after` is `before` once deactivated, whatever code the export returned.
pub open spec fn deactivated<L: NativeLibrary>(after: NativeAdapter<L>, before: NativeAdapter<L>) -> bool {
    exists|code: i32| deactivated_from(after, before, code)
}

impl<L: NativeLibrary> Plugin for NativeAdapter<L> {
    fn name(&self) -> String {
        NativeAdapter::name(self)
    }

    fn on_load(&mut self) -> Result<(), PluginError> {
        NativeAdapter::on_load(self)
    }

    fn on_unload(&mut self) -> Result<(), PluginError> {
        NativeAdapter::on_unload(self)
    }
}

} // verus!
