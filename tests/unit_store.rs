use runrs::cli::child_exit_code;
use runrs::digest::content_hash;
use runrs::error::CacheError;
use runrs::store::{
    initial_root_manifest, package_name, plan_workspace, Action, Event, RootPlan, UnitStore,
};

/// An in-memory stand-in for the workspace directory and the scaffold tool.
struct FakeWorkspace {
    root: Option<String>,
    unit_manifest: Option<String>,
    unit_dir_exists: bool,
    scaffold_ok: bool,
    scaffolds: usize,
    warnings: usize,
    copied: Option<String>,
}

impl FakeWorkspace {
    fn fresh() -> FakeWorkspace {
        FakeWorkspace {
            root: Some(initial_root_manifest()),
            unit_manifest: None,
            unit_dir_exists: false,
            scaffold_ok: true,
            scaffolds: 0,
            warnings: 0,
            copied: None,
        }
    }

    fn ensure(&mut self, script: &str) -> Result<String, CacheError> {
        let hash = content_hash(script.as_bytes());
        let mut store = UnitStore::new(hash, Some("hello".to_string()));
        let mut action = store.begin();
        loop {
            let event = match action {
                Action::InspectUnit => Event::UnitFound {
                    manifest: self.unit_manifest.clone(),
                    dir_exists: self.unit_dir_exists,
                },
                Action::ReadRootManifest { warn_dir_without_manifest } => {
                    if warn_dir_without_manifest {
                        self.warnings += 1;
                    }
                    match &self.root {
                        Some(t) => Event::Text(t.clone()),
                        None => Event::IoFailed,
                    }
                }
                Action::WriteRootManifest(t) => {
                    self.root = Some(t);
                    Event::Written
                }
                Action::Scaffold { package } => {
                    self.scaffolds += 1;
                    if self.scaffold_ok {
                        self.unit_dir_exists = true;
                        self.unit_manifest = Some(format!(
                            "[package]\nname = \"{}\"\nversion = \"0.1.0\"\n\n[dependencies]\n",
                            package
                        ));
                    }
                    Event::Scaffolded { success: self.scaffold_ok }
                }
                Action::ReadScript => Event::Text(script.to_string()),
                Action::ReadUnitManifest => Event::Text(self.unit_manifest.clone().unwrap()),
                Action::WriteUnitManifest(t) => {
                    self.unit_manifest = Some(t);
                    Event::Written
                }
                Action::CopyScript => {
                    self.copied = Some(script.to_string());
                    Event::Written
                }
                Action::Finish => return Ok(store.unit_dir()),
                Action::Abort(e) => return Err(e),
            };
            action = store.step(event);
        }
    }

    fn members(&self) -> Vec<String> {
        let v: toml::Value = toml::from_str(self.root.as_ref().unwrap()).unwrap();
        v["workspace"]["members"]
            .as_array()
            .unwrap()
            .iter()
            .map(|m| m.as_str().unwrap().to_string())
            .collect()
    }

    fn dependencies(&self) -> toml::value::Table {
        let v: toml::Value = toml::from_str(self.unit_manifest.as_ref().unwrap()).unwrap();
        v["dependencies"].as_table().unwrap().clone()
    }
}

const HELLO: &str = "fn main() {\n    std::process::exit(3);\n}\n";

#[test]
fn fresh_workspace_end_to_end() {
    assert_eq!(
        plan_workspace(false, false),
        RootPlan::Create { make_dir: true, warn_dir_without_manifest: false }
    );
    let mut ws = FakeWorkspace::fresh();
    let dir = ws.ensure(HELLO).unwrap();
    let hash = content_hash(HELLO.as_bytes());
    assert_eq!(dir, hash);
    assert_eq!(ws.members(), vec![hash.clone()]);
    assert!(ws.dependencies().is_empty());
    assert_eq!(ws.scaffolds, 1);
    assert_eq!(ws.copied.as_deref(), Some(HELLO));
    assert_eq!(child_exit_code(Some(3)), 3);
}

#[test]
fn second_run_reuses_the_unit() {
    let mut ws = FakeWorkspace::fresh();
    let first = ws.ensure(HELLO).unwrap();
    let second = ws.ensure(HELLO).unwrap();
    assert_eq!(first, second);
    assert_eq!(ws.scaffolds, 1);
}

#[test]
fn repeated_runs_list_the_unit_once() {
    let mut ws = FakeWorkspace::fresh();
    let hash = content_hash(HELLO.as_bytes());
    ws.ensure(HELLO).unwrap();
    ws.ensure(HELLO).unwrap();
    assert_eq!(ws.members(), vec![hash.clone()]);
    ws.unit_manifest = None;
    ws.ensure(HELLO).unwrap();
    assert_eq!(ws.members(), vec![hash]);
}

#[test]
fn different_scripts_get_different_units() {
    let mut ws = FakeWorkspace::fresh();
    let a = ws.ensure("fn main() {}\n").unwrap();
    ws.unit_manifest = None;
    ws.unit_dir_exists = false;
    let b = ws.ensure("fn main() { }\n").unwrap();
    assert_ne!(a, b);
    assert_eq!(ws.members(), vec![a, b]);
}

#[test]
fn declared_dependencies_are_merged() {
    let mut ws = FakeWorkspace::fresh();
    ws.ensure("extern crate rand;\nextern crate regex;\nextern crate rand;\nfn main() {}\n").unwrap();
    let deps = ws.dependencies();
    assert_eq!(deps.len(), 2);
    assert_eq!(deps["rand"].as_str(), Some("*"));
    assert_eq!(deps["regex"].as_str(), Some("*"));
}

#[test]
fn corrupted_unit_manifest_is_fatal() {
    let mut ws = FakeWorkspace::fresh();
    ws.ensure(HELLO).unwrap();
    let broken = "[package\nname = ".to_string();
    ws.unit_manifest = Some(broken.clone());
    assert_eq!(ws.ensure(HELLO), Err(CacheError::ManifestCorruption));
    assert_eq!(ws.unit_manifest, Some(broken));
    assert_eq!(ws.scaffolds, 1);
}

#[test]
fn corrupted_root_manifest_is_fatal() {
    let mut ws = FakeWorkspace::fresh();
    ws.root = Some("[workspace".to_string());
    assert_eq!(ws.ensure(HELLO), Err(CacheError::ManifestCorruption));
    assert_eq!(ws.scaffolds, 0);
}

#[test]
fn unit_directory_without_manifest_is_rebuilt_with_a_warning() {
    let mut ws = FakeWorkspace::fresh();
    ws.unit_dir_exists = true;
    let dir = ws.ensure(HELLO).unwrap();
    assert_eq!(dir, content_hash(HELLO.as_bytes()));
    assert_eq!(ws.warnings, 1);
    assert_eq!(ws.scaffolds, 1);
}

#[test]
fn scaffold_failure_is_fatal() {
    let mut ws = FakeWorkspace::fresh();
    ws.scaffold_ok = false;
    assert_eq!(ws.ensure(HELLO), Err(CacheError::Subprocess));
    assert_eq!(ws.copied, None);
}

#[test]
fn unreadable_root_manifest_is_an_io_failure() {
    let mut ws = FakeWorkspace::fresh();
    ws.root = None;
    assert_eq!(ws.ensure(HELLO), Err(CacheError::Io));
}

#[test]
fn unexpected_event_fails_the_store() {
    let mut store = UnitStore::new("abc".to_string(), None);
    assert!(matches!(store.begin(), Action::InspectUnit));
    assert!(matches!(store.step(Event::Written), Action::Abort(CacheError::Io)));
    assert!(matches!(store.step(Event::Written), Action::Abort(CacheError::Io)));
}

#[test]
fn workspace_plans() {
    assert_eq!(plan_workspace(true, true), RootPlan::Ready);
    assert_eq!(
        plan_workspace(false, true),
        RootPlan::Create { make_dir: false, warn_dir_without_manifest: true }
    );
    assert_eq!(initial_root_manifest(), "[workspace]\nmembers = []\n");
}

#[test]
fn package_names() {
    let h = "0123456789abcdef0123456789abcdef01234567".to_string();
    assert_eq!(package_name(&Some("hello".to_string()), &h), format!("hello-{}", h));
    assert_eq!(package_name(&None, &h), h);
}

#[test]
fn repeated_declarations_merge_once_each() {
    let mut ws = FakeWorkspace::fresh();
    ws.ensure("extern crate foo;\nextern crate bar;\nextern crate foo;\nextern crate bar;\nfn main() {}\n")
        .unwrap();
    let deps = ws.dependencies();
    let mut keys: Vec<&String> = deps.keys().collect();
    keys.sort();
    assert_eq!(keys, vec!["bar", "foo"]);
    assert_eq!(deps["foo"].as_str(), Some("*"));
    assert_eq!(deps["bar"].as_str(), Some("*"));
}
