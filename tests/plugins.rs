use protosy::adapter::check_exports;
use protosy::error::status_result;
use protosy::{Export, NativeAdapter, NativeLibrary, Plugin, PluginError, PluginManager};

/// An in-process stand-in for a plugin library. The path describes it:
/// `name=upcase;on_load=3;on_unload=7;missing=on_load`, or `unmappable`.
#[derive(Debug)]
struct FakeLibrary {
    name: String,
    missing: Vec<Export>,
    activate_code: i32,
    deactivate_code: i32,
    initialized: u32,
    name_reads: u32,
    activations: u32,
    deactivations: u32,
}

fn export_named(s: &str) -> Export {
    match s {
        "name" => Export::Name,
        "initialize" => Export::Initialize,
        "on_load" => Export::OnLoad,
        "on_unload" => Export::OnUnload,
        _ => panic!("unknown export {}", s),
    }
}

impl NativeLibrary for FakeLibrary {
    fn open(path: &str) -> Result<Self, String> {
        let mut lib = FakeLibrary {
            name: String::new(),
            missing: Vec::new(),
            activate_code: 0,
            deactivate_code: 0,
            initialized: 0,
            name_reads: 0,
            activations: 0,
            deactivations: 0,
        };
        for part in path.split(';') {
            let (key, value) = part.split_once('=').unwrap_or((part, ""));
            match key {
                "unmappable" => return Err(format!("cannot map {}", path)),
                "name" => lib.name = value.to_string(),
                "missing" => lib.missing.push(export_named(value)),
                "on_load" => lib.activate_code = value.parse().unwrap(),
                "on_unload" => lib.deactivate_code = value.parse().unwrap(),
                _ => {}
            }
        }
        Ok(lib)
    }

    fn resolve(&mut self, export: Export) -> bool {
        !self.missing.contains(&export)
    }

    fn initialize(&mut self) {
        self.initialized += 1;
    }

    fn read_name(&mut self) -> String {
        self.name_reads += 1;
        self.name.clone()
    }

    fn activate(&mut self) -> i32 {
        self.activations += 1;
        self.activate_code
    }

    fn deactivate(&mut self) -> i32 {
        self.deactivations += 1;
        self.deactivate_code
    }
}

fn built(path: &str) -> NativeAdapter<FakeLibrary> {
    match NativeAdapter::<FakeLibrary>::build(path) {
        Ok(a) => a,
        Err(e) => panic!("build failed: {:?}", e),
    }
}

fn loaded(paths: &[&str]) -> PluginManager<FakeLibrary> {
    let mut manager = PluginManager::<FakeLibrary>::new();
    for p in paths {
        assert_eq!(manager.load(p), Ok(()));
    }
    manager
}

#[test]
fn status_zero_is_success() {
    assert_eq!(status_result(0), Ok(()));
}

#[test]
fn status_nonzero_carries_code() {
    assert_eq!(status_result(-2), Err(PluginError::NativeFailure(-2)));
    assert_eq!(status_result(42), Err(PluginError::NativeFailure(42)));
}

#[test]
fn check_exports_all_present() {
    assert_eq!(check_exports(true, true, true, true), Ok(()));
}

#[test]
fn check_exports_names_first_missing() {
    let miss = |e| Err(PluginError::SymbolResolutionFailure(e));
    assert_eq!(check_exports(false, true, true, true), miss(Export::Name));
    assert_eq!(check_exports(true, false, true, true), miss(Export::Initialize));
    assert_eq!(check_exports(true, true, false, true), miss(Export::OnLoad));
    assert_eq!(check_exports(true, true, true, false), miss(Export::OnUnload));
    assert_eq!(check_exports(true, false, false, false), miss(Export::Initialize));
}

#[test]
fn build_unmappable_is_load_failure() {
    let r = NativeAdapter::<FakeLibrary>::build("unmappable");
    assert!(matches!(r, Err(PluginError::LoadFailure(m)) if m == "cannot map unmappable"));
}

#[test]
fn build_missing_export_is_symbol_failure() {
    for (symbol, export) in [
        ("name", Export::Name),
        ("initialize", Export::Initialize),
        ("on_load", Export::OnLoad),
        ("on_unload", Export::OnUnload),
    ] {
        let path = format!("name=upcase;missing={}", symbol);
        let r = NativeAdapter::<FakeLibrary>::build(&path);
        assert!(matches!(r, Err(PluginError::SymbolResolutionFailure(e)) if e == export));
    }
}

#[test]
fn build_initializes_once_and_copies_name() {
    let a = built("name=upcase");
    assert_eq!(a.name(), "upcase");
    assert!(!a.active());
    assert_eq!(a.library().initialized, 1);
    assert_eq!(a.library().name_reads, 1);
    assert_eq!(a.library().activations, 0);
    assert_eq!(a.library().deactivations, 0);
}

#[test]
fn activate_then_activate_again_is_already_active() {
    let mut a = built("name=upcase");
    assert_eq!(a.on_load(), Ok(()));
    assert!(a.active());
    assert_eq!(a.on_load(), Err(PluginError::AlreadyActive));
    assert_eq!(a.library().activations, 1);
    assert!(a.active());
}

#[test]
fn activate_failure_still_marks_active() {
    let mut a = built("name=upcase;on_load=3");
    assert_eq!(a.on_load(), Err(PluginError::NativeFailure(3)));
    assert!(a.active());
    assert_eq!(a.on_load(), Err(PluginError::AlreadyActive));
    assert_eq!(a.library().activations, 1);
}

#[test]
fn deactivate_inactive_is_not_active() {
    let mut a = built("name=upcase");
    assert_eq!(a.on_unload(), Err(PluginError::NotActive));
    assert_eq!(a.library().deactivations, 0);
}

#[test]
fn deactivate_marks_inactive_even_on_failure() {
    let mut a = built("name=upcase;on_unload=7");
    assert_eq!(a.on_load(), Ok(()));
    assert_eq!(a.on_unload(), Err(PluginError::NativeFailure(7)));
    assert!(!a.active());
    assert_eq!(a.library().deactivations, 1);
    assert_eq!(a.on_unload(), Err(PluginError::NotActive));
}

#[test]
fn teardown_of_inactive_adapter_reports_nothing() {
    let mut a = built("name=upcase;on_unload=7");
    assert_eq!(a.teardown(), None);
    assert_eq!(a.library().deactivations, 0);
    assert!(!a.active());
}

#[test]
fn teardown_of_active_adapter_hands_back_discarded_failure() {
    let mut a = built("name=upcase;on_unload=7");
    assert_eq!(a.on_load(), Ok(()));
    assert_eq!(a.teardown(), Some(PluginError::NativeFailure(7)));
    assert!(!a.active());
    assert_eq!(a.library().deactivations, 1);
    assert_eq!(a.teardown(), None);
    assert_eq!(a.library().deactivations, 1);
    let mut b = built("name=upcase");
    assert_eq!(b.on_load(), Ok(()));
    assert_eq!(b.teardown(), None);
    assert_eq!(b.library().deactivations, 1);
}

#[test]
fn from_resolved_calls_initializer_and_name_only_when_all_found() {
    let lib = FakeLibrary::open("name=upcase").unwrap();
    let a = NativeAdapter::from_resolved(lib, true, true, true, true).unwrap();
    assert_eq!(a.name(), "upcase");
    assert!(!a.active());
    assert_eq!(a.library().initialized, 1);
    assert_eq!(a.library().name_reads, 1);
    for found in [
        [false, true, true, true],
        [true, false, true, true],
        [true, true, false, true],
        [true, true, true, false],
    ] {
        let lib = FakeLibrary::open("name=upcase").unwrap();
        match NativeAdapter::from_resolved(lib, found[0], found[1], found[2], found[3]) {
            Ok(_) => panic!("adopted a library with a missing export"),
            Err((e, back)) => {
                assert!(matches!(e, PluginError::SymbolResolutionFailure(_)));
                assert_eq!(back.initialized, 0);
                assert_eq!(back.name_reads, 0);
            }
        }
    }
    let lib = FakeLibrary::open("name=upcase").unwrap();
    let r = NativeAdapter::from_resolved(lib, true, true, false, false);
    assert!(matches!(r, Err((PluginError::SymbolResolutionFailure(Export::OnLoad), _))));
}

#[test]
fn load_then_lookup_finds_reported_name() {
    let m = loaded(&["name=upcase"]);
    assert_eq!(m.len(), 1);
    let i = m.position("upcase").unwrap();
    assert_eq!(i, 0);
    let a = m.get(i).unwrap();
    assert_eq!(a.name(), "upcase");
    assert!(a.active());
    assert_eq!(a.library().activations, 1);
}

#[test]
fn load_with_missing_export_leaves_registry() {
    let mut m = loaded(&["name=a"]);
    for symbol in ["name", "initialize", "on_load", "on_unload"] {
        let path = format!("name=b;missing={}", symbol);
        assert!(matches!(m.load(&path), Err(PluginError::SymbolResolutionFailure(_))));
        assert_eq!(m.len(), 1);
    }
}

#[test]
fn load_unmappable_leaves_registry() {
    let mut m = loaded(&["name=a"]);
    assert!(matches!(m.load("unmappable"), Err(PluginError::LoadFailure(_))));
    assert_eq!(m.names(), vec!["a".to_string()]);
}

#[test]
fn unload_unknown_name() {
    let mut m = loaded(&["name=a", "name=b"]);
    assert_eq!(
        m.unload("nonexistent"),
        Err(PluginError::UnknownPlugin("nonexistent".to_string()))
    );
    assert_eq!(m.len(), 2);
}

#[test]
fn unload_at_out_of_range() {
    let mut m = loaded(&["name=a", "name=b"]);
    assert_eq!(m.unload_at(2), Err(PluginError::IndexOutOfRange));
    assert_eq!(m.unload_at(usize::MAX), Err(PluginError::IndexOutOfRange));
    assert_eq!(m.len(), 2);
    let mut empty = PluginManager::<FakeLibrary>::new();
    assert_eq!(empty.unload_at(0), Err(PluginError::IndexOutOfRange));
    assert_eq!(empty.len(), 0);
}

#[test]
fn unload_at_middle_shifts_later_plugins() {
    let mut m = loaded(&["name=A", "name=B", "name=C"]);
    assert_eq!(m.unload_at(1), Ok(()));
    assert_eq!(m.names(), vec!["A".to_string(), "C".to_string()]);
    assert_eq!(m.get(1).unwrap().name(), "C");
    assert!(m.get(2).is_none());
}

#[test]
fn unload_at_middle_removes_even_when_deactivation_fails() {
    let mut m = loaded(&["name=A", "name=B;on_unload=9", "name=C"]);
    assert_eq!(m.unload_at(1), Err(PluginError::NativeFailure(9)));
    assert_eq!(m.len(), 2);
    assert_eq!(m.names(), vec!["A".to_string(), "C".to_string()]);
    assert_eq!(m.position("B"), None);
}

#[test]
fn same_name_twice_unload_removes_first() {
    let mut m = loaded(&["name=dup;on_unload=5", "name=dup"]);
    assert_eq!(m.len(), 2);
    assert_eq!(m.unload("dup"), Err(PluginError::NativeFailure(5)));
    assert_eq!(m.len(), 1);
    assert_eq!(m.get(0).unwrap().library().deactivate_code, 0);
    assert_eq!(m.unload("dup"), Ok(()));
    assert_eq!(m.len(), 0);
}

#[test]
fn load_count_grows_by_one_only_on_activation_success() {
    let mut m = PluginManager::<FakeLibrary>::new();
    assert_eq!(m.load("name=a"), Ok(()));
    assert_eq!(m.len(), 1);
    assert_eq!(m.load("name=b;on_load=4"), Err(PluginError::NativeFailure(4)));
    assert_eq!(m.len(), 1);
    assert_eq!(m.position("b"), None);
    assert_eq!(m.load("name=c"), Ok(()));
    assert_eq!(m.len(), 2);
    assert!(m.get(0).unwrap().active() && m.get(1).unwrap().active());
}

#[test]
fn close_hands_back_deactivation_failures_in_order() {
    let mut m = loaded(&["name=a;on_unload=1", "name=b", "name=c;on_unload=-3"]);
    assert_eq!(
        m.close(),
        vec![PluginError::NativeFailure(1), PluginError::NativeFailure(-3)]
    );
    assert_eq!(m.len(), 0);
    assert_eq!(m.close(), Vec::new());
    assert_eq!(loaded(&[]).close(), Vec::new());
}

#[test]
fn plugin_surface_drives_the_adapter() {
    let mut a = built("name=upcase;on_unload=2");
    let p: &mut dyn Plugin = &mut a;
    assert_eq!(p.name(), "upcase");
    assert_eq!(p.on_unload(), Err(PluginError::NotActive));
    assert_eq!(p.on_load(), Ok(()));
    assert_eq!(p.on_load(), Err(PluginError::AlreadyActive));
    assert_eq!(p.on_unload(), Err(PluginError::NativeFailure(2)));
    assert!(!a.active());
}
