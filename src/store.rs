//! The workspace root and the build-unit store.
//!
//! The store is a state machine. The driver performs each action that it
//! returns (reading or writing a file, running the scaffold tool) and hands
//! back what came of it; the store decides what is done next. A unit is keyed
//! by the content hash of its script: its directory under the workspace root
//! is named by the hash, and it is listed by the hash in the workspace's
//! member list.

use crate::deps::{declared_names, extract_dependencies};
use crate::digest::{is_content_hash, sha1_hex};
use crate::error::CacheError;
use crate::manifest::{
    add_dependencies, add_workspace_member, dependencies_added, dependency_table, members_replaced,
    manifest_doc, read_manifest, toml_render, workspace_members, write_manifest,
};
use crate::unique::{dedup, lemma_member_listed_once, occurrences, texts, with_member};
use vstd::prelude::*;
use vstd::string::StringExecFns;

verus! {

/// What to do about the workspace root before any unit is looked at.
#[derive(Debug, Clone, Copy, PartialEq, Eq, Structural)]
pub enum RootPlan {
    /// The root manifest exists: nothing to do.
    Ready,
    /// Write the initial root manifest, creating it only if it is still absent.
    Create {
        /// The workspace directory must be made first.
        make_dir: bool,
        /// The directory was there without a manifest: worth a warning.
        warn_dir_without_manifest: bool,
    },
}

/// Decides how to bring the workspace root into being.
pub fn plan_workspace(manifest_exists: bool, dir_exists: bool) -> (r: RootPlan)
    ensures
        manifest_exists ==> r == RootPlan::Ready,
        !manifest_exists ==> r == (RootPlan::Create {
            make_dir: !dir_exists,
            warn_dir_without_manifest: dir_exists,
        }),
{
    if manifest_exists {
        RootPlan::Ready
    } else {
        RootPlan::Create { make_dir: !dir_exists, warn_dir_without_manifest: dir_exists }
    }
}

/// The text of a new root manifest: a workspace with no members.
pub open spec fn initial_root_text() -> Seq<char> {
    "[workspace]\nmembers = []\n"@
}

pub fn initial_root_manifest() -> (r: String)
    ensures
        r@ == initial_root_text(),
{
    String::from_str("[workspace]\nmembers = []\n")
}

/// The name of the package of a unit: the script's file stem and the hash,
/// joined by `-`, or the hash alone where the script has no usable stem.
pub open spec fn package_name_of(stem: Option<Seq<char>>, hash: Seq<char>) -> Seq<char> {
    match stem {
        Some(s) => s + "-"@ + hash,
        None => hash,
    }
}

pub fn package_name(stem: &Option<String>, hash: &String) -> (r: String)
    ensures
        r@ == package_name_of(
            match stem {
                Some(s) => Some(s@),
                None => None,
            },
            hash@,
        ),
{
    match stem {
        Some(s) => s.clone().concat("-").concat(hash.as_str()),
        None => hash.clone(),
    }
}

/// The directory of a unit, relative to the workspace root; also its entry in
/// the member list.
pub open spec fn unit_dir_of(hash: Seq<char>) -> Seq<char> {
    hash
}

pub fn unit_dir(hash: &String) -> (r: String)
    ensures
        r@ == unit_dir_of(hash@),
{
    hash.clone()
}

/// Where a store stands.
#[derive(Debug)]
pub enum StoreState {
    /// Nothing was looked at yet.
    Start,
    /// Waiting to learn whether the unit and its manifest exist.
    Inspecting,
    /// Waiting for the text of the root manifest.
    Registering,
    /// Waiting for the new root manifest to be written.
    WritingRoot,
    /// Waiting for the scaffold tool.
    Scaffolding,
    /// Waiting for the text of the script.
    ReadingScript,
    /// Waiting for the text of the unit manifest, to add these dependencies.
    ReadingUnitManifest { deps: Vec<String> },
    /// Waiting for the new unit manifest to be written.
    WritingUnitManifest,
    /// Waiting for the script to be copied into the unit.
    CopyingScript,
    /// The unit is ready.
    Done,
    /// The invocation must end with this failure.
    Failed(CacheError),
}

/// What the driver must do next.
#[derive(Debug)]
pub enum Action {
    /// Read the unit's manifest if there is one, and say whether its directory exists.
    InspectUnit,
    /// Read the root manifest. Where the flag is set, the unit's directory was
    /// found without a manifest, which is worth a warning.
    ReadRootManifest { warn_dir_without_manifest: bool },
    /// Replace the root manifest with this text.
    WriteRootManifest(String),
    /// Run the scaffold tool to create the unit under this package name.
    Scaffold { package: String },
    /// Read the script's text.
    ReadScript,
    /// Read the unit's manifest.
    ReadUnitManifest,
    /// Replace the unit's manifest with this text.
    WriteUnitManifest(String),
    /// Copy the script over the unit's entry-point file.
    CopyScript,
    /// The unit is ready to build.
    Finish,
    /// Stop the invocation with this failure.
    Abort(CacheError),
}

/// What came of the last action.
#[derive(Debug)]
pub enum Event {
    /// The unit's manifest text, if it has one, and whether its directory exists.
    UnitFound { manifest: Option<String>, dir_exists: bool },
    /// The text that was read.
    Text(String),
    /// The write or copy was done.
    Written,
    /// The scaffold tool ended, with success or not.
    Scaffolded { success: bool },
    /// The file operation failed.
    IoFailed,
}

/// Going to the failure `e`.
pub open spec fn fails_with(s: StoreState, a: Action, e: CacheError) -> bool {
    s == StoreState::Failed(e) && a == Action::Abort(e)
}

/// Going to `next` with action `act`.
pub open spec fn goes_to(s: StoreState, a: Action, next: StoreState, act: Action) -> bool {
    s == next && a == act
}

/// The steps of the store: from `s0`, on event `e`, the store of the unit
/// `hash` with package name `package` moves to `s1` and asks for `a`.
pub open spec fn step_spec(
    hash: Seq<char>,
    package: Seq<char>,
    s0: StoreState,
    e: Event,
    s1: StoreState,
    a: Action,
) -> bool {
    match s0 {
        StoreState::Done => goes_to(s1, a, StoreState::Done, Action::Finish),
        StoreState::Failed(f) => fails_with(s1, a, f),
        _ => match e {
            Event::IoFailed => fails_with(s1, a, CacheError::Io),
            _ => match (s0, e) {
                (StoreState::Inspecting, Event::UnitFound { manifest: Some(t), dir_exists: _ }) =>
                    if manifest_doc(t@) is Some {
                        goes_to(s1, a, StoreState::CopyingScript, Action::CopyScript)
                    } else {
                        fails_with(s1, a, CacheError::ManifestCorruption)
                    },
                (StoreState::Inspecting, Event::UnitFound { manifest: None, dir_exists }) =>
                    goes_to(s1, a, StoreState::Registering,
                        Action::ReadRootManifest { warn_dir_without_manifest: dir_exists }),
                (StoreState::Registering, Event::Text(t)) => match manifest_doc(t@) {
                    Some(doc) => match workspace_members(doc) {
                        Some(m) => exists|nd: toml::Value| #![auto] {
                            &&& members_replaced(doc, nd, with_member(m, unit_dir_of(hash)))
                            &&& match toml_render(nd) {
                                Some(out) => {
                                    &&& s1 == StoreState::WritingRoot
                                    &&& a matches Action::WriteRootManifest(w)
                                    &&& w@ == out
                                },
                                None => fails_with(s1, a, CacheError::ManifestCorruption),
                            }
                        },
                        None => fails_with(s1, a, CacheError::ManifestCorruption),
                    },
                    None => fails_with(s1, a, CacheError::ManifestCorruption),
                },
                (StoreState::WritingRoot, Event::Written) => {
                    &&& s1 == StoreState::Scaffolding
                    &&& a matches Action::Scaffold { package: p }
                    &&& p@ == package
                },
                (StoreState::Scaffolding, Event::Scaffolded { success }) =>
                    if success {
                        goes_to(s1, a, StoreState::ReadingScript, Action::ReadScript)
                    } else {
                        fails_with(s1, a, CacheError::Subprocess)
                    },
                (StoreState::ReadingScript, Event::Text(src)) =>
                    if dedup(declared_names(src@)).len() == 0 {
                        goes_to(s1, a, StoreState::CopyingScript, Action::CopyScript)
                    } else {
                        &&& s1 matches StoreState::ReadingUnitManifest { deps }
                        &&& texts(deps@) == dedup(declared_names(src@))
                        &&& a == Action::ReadUnitManifest
                    },
                (StoreState::ReadingUnitManifest { deps }, Event::Text(t)) => match manifest_doc(t@) {
                    Some(doc) => match dependency_table(doc) {
                        Some(_) => exists|nd: toml::Value| #![auto] {
                            &&& dependencies_added(doc, nd, texts(deps@))
                            &&& match toml_render(nd) {
                                Some(out) => {
                                    &&& s1 == StoreState::WritingUnitManifest
                                    &&& a matches Action::WriteUnitManifest(w)
                                    &&& w@ == out
                                },
                                None => fails_with(s1, a, CacheError::ManifestCorruption),
                            }
                        },
                        None => fails_with(s1, a, CacheError::ManifestCorruption),
                    },
                    None => fails_with(s1, a, CacheError::ManifestCorruption),
                },
                (StoreState::WritingUnitManifest, Event::Written) =>
                    goes_to(s1, a, StoreState::CopyingScript, Action::CopyScript),
                (StoreState::CopyingScript, Event::Written) =>
                    goes_to(s1, a, StoreState::Done, Action::Finish),
                _ => fails_with(s1, a, CacheError::Io),
            },
        },
    }
}



/// A cache hit does no work: a second run of the same script looks at the
/// same unit as the first, and where the unit's manifest is in place and
/// readable, the store has the script copied and finishes; the scaffold tool
/// is never run.
pub proof fn lemma_cache_hit_reuses_unit(
    first_run: Seq<u8>,
    second_run: Seq<u8>,
    hash: Seq<char>,
    package: Seq<char>,
    manifest: String,
    dir_exists: bool,
    s1: StoreState,
    a1: Action,
    e2: Event,
    s2: StoreState,
    a2: Action,
)
    requires
        first_run == second_run,
        hash == sha1_hex(second_run),
        manifest_doc(manifest@) is Some,
        step_spec(hash, package, StoreState::Inspecting,
            Event::UnitFound { manifest: Some(manifest), dir_exists }, s1, a1),
        step_spec(hash, package, s1, e2, s2, a2),
    ensures
        unit_dir_of(hash) == unit_dir_of(sha1_hex(first_run)),
        a1 == Action::CopyScript,
        e2 == Event::Written ==> s2 == StoreState::Done && a2 == Action::Finish,
        e2 != Event::Written ==> a2 == Action::Abort(CacheError::Io),
        !(a2 is Scaffold),
{
}

/// Scripts whose content hashes differ get different unit directories and
/// different package names.
pub proof fn lemma_distinct_hashes_distinct_units(
    h1: Seq<char>,
    h2: Seq<char>,
    stem1: Option<Seq<char>>,
    stem2: Option<Seq<char>>,
)
    requires
        is_content_hash(h1),
        is_content_hash(h2),
        h1 != h2,
    ensures
        unit_dir_of(h1) != unit_dir_of(h2),
        package_name_of(stem1, h1) != package_name_of(stem2, h2),
{
    let p1 = package_name_of(stem1, h1);
    let p2 = package_name_of(stem2, h2);
    assert(p1.subrange(p1.len() - 40, p1.len() as int) =~= h1);
    assert(p2.subrange(p2.len() - 40, p2.len() as int) =~= h2);
}

/// The root manifest that the store writes lists the unit exactly once, and
/// everything else in it is as it was read.
pub proof fn lemma_registration_lists_unit_once(
    hash: Seq<char>,
    package: Seq<char>,
    root_text: String,
    s1: StoreState,
    a1: Action,
)
    requires
        step_spec(hash, package, StoreState::Registering, Event::Text(root_text), s1, a1),
        a1 is WriteRootManifest,
    ensures
        manifest_doc(root_text@) matches Some(doc) && workspace_members(doc) matches Some(m) && exists|
            nd: toml::Value,
        | {
            &&& members_replaced(doc, nd, with_member(m, hash))
            &&& #[trigger] toml_render(nd) == Some(a1->WriteRootManifest_0@)
            &&& occurrences(with_member(m, hash), hash) == 1
        },
{
    let doc = manifest_doc(root_text@)->0;
    let m = workspace_members(doc)->0;
    lemma_member_listed_once(m, hash);
    let nd = choose|nd: toml::Value| #![auto] {
        &&& members_replaced(doc, nd, with_member(m, unit_dir_of(hash)))
        &&& match toml_render(nd) {
            Some(out) => {
                &&& s1 == StoreState::WritingRoot
                &&& a1 matches Action::WriteRootManifest(w)
                &&& w@ == out
            },
            None => fails_with(s1, a1, CacheError::ManifestCorruption),
        }
    };
    assert(toml_render(nd) == Some(a1->WriteRootManifest_0@));
}

/// A unit manifest that is not valid TOML ends the invocation with
/// `ManifestCorruption`, and nothing is written after it.
pub proof fn lemma_corrupt_unit_manifest_is_fatal(
    hash: Seq<char>,
    package: Seq<char>,
    manifest: String,
    dir_exists: bool,
    s1: StoreState,
    a1: Action,
    e2: Event,
    s2: StoreState,
    a2: Action,
)
    requires
        manifest_doc(manifest@) is None,
        step_spec(hash, package, StoreState::Inspecting,
            Event::UnitFound { manifest: Some(manifest), dir_exists }, s1, a1),
        step_spec(hash, package, s1, e2, s2, a2),
    ensures
        s1 == StoreState::Failed(CacheError::ManifestCorruption),
        a1 == Action::Abort(CacheError::ManifestCorruption),
        s2 == s1,
        a2 == a1,
{
}

/// The unit is registered in the root manifest before it is scaffolded: the
/// store asks for the scaffold tool only once the new root manifest is written.
pub proof fn lemma_scaffold_follows_registration(
    hash: Seq<char>,
    package: Seq<char>,
    s0: StoreState,
    e: Event,
    s1: StoreState,
    a: Action,
)
    requires
        step_spec(hash, package, s0, e, s1, a),
        a is Scaffold,
    ensures
        s0 == StoreState::WritingRoot,
        e == Event::Written,
        a->Scaffold_package@ == package,
{
}

/// The script is always copied into the unit before the store finishes, on a
/// cache hit as on a fresh unit.
pub proof fn lemma_finish_follows_copy(
    hash: Seq<char>,
    package: Seq<char>,
    s0: StoreState,
    e: Event,
    s1: StoreState,
)
    requires
        step_spec(hash, package, s0, e, s1, Action::Finish),
        s0 != StoreState::Done,
    ensures
        s0 == StoreState::CopyingScript,
        e == Event::Written,
        s1 == StoreState::Done,
{
}

/// The build-unit store for one script.
pub struct UnitStore {
    hash: String,
    package: String,
    state: StoreState,
}

fn failure(e: CacheError) -> (r: (StoreState, Action))
    ensures
        fails_with(r.0, r.1, e),
{
    (StoreState::Failed(e), Action::Abort(e))
}

/// Adds the unit to the member list of the root manifest text `text`.
fn register(hash: &String, text: &String) -> (r: (StoreState, Action))
    ensures
        match manifest_doc(text@) {
            Some(doc) => match workspace_members(doc) {
                Some(m) => exists|nd: toml::Value| #![auto] {
                    &&& members_replaced(doc, nd, with_member(m, unit_dir_of(hash@)))
                    &&& match toml_render(nd) {
                        Some(out) => {
                            &&& r.0 == StoreState::WritingRoot
                            &&& r.1 matches Action::WriteRootManifest(w)
                            &&& w@ == out
                        },
                        None => fails_with(r.0, r.1, CacheError::ManifestCorruption),
                    }
                },
                None => fails_with(r.0, r.1, CacheError::ManifestCorruption),
            },
            None => fails_with(r.0, r.1, CacheError::ManifestCorruption),
        },
{
    let doc = match read_manifest(text.as_str()) {
        Ok(d) => d,
        Err(e) => return failure(e),
    };
    let new_doc = match add_workspace_member(doc, hash) {
        Ok(n) => n,
        Err(e) => return failure(e),
    };
    let r = match write_manifest(&new_doc) {
        Ok(out) => (StoreState::WritingRoot, Action::WriteRootManifest(out)),
        Err(e) => failure(e),
    };
    assert(members_replaced(doc, new_doc, with_member(workspace_members(doc)->0, unit_dir_of(hash@))));
    r
}

/// Adds the dependencies `deps` to the unit manifest text `text`.
fn merge(deps: &Vec<String>, text: &String) -> (r: (StoreState, Action))
    ensures
        match manifest_doc(text@) {
            Some(doc) => match dependency_table(doc) {
                Some(_) => exists|nd: toml::Value| #![auto] {
                    &&& dependencies_added(doc, nd, texts(deps@))
                    &&& match toml_render(nd) {
                        Some(out) => {
                            &&& r.0 == StoreState::WritingUnitManifest
                            &&& r.1 matches Action::WriteUnitManifest(w)
                            &&& w@ == out
                        },
                        None => fails_with(r.0, r.1, CacheError::ManifestCorruption),
                    }
                },
                None => fails_with(r.0, r.1, CacheError::ManifestCorruption),
            },
            None => fails_with(r.0, r.1, CacheError::ManifestCorruption),
        },
{
    let doc = match read_manifest(text.as_str()) {
        Ok(d) => d,
        Err(e) => return failure(e),
    };
    let new_doc = match add_dependencies(doc, deps) {
        Ok(n) => n,
        Err(e) => return failure(e),
    };
    let r = match write_manifest(&new_doc) {
        Ok(out) => (StoreState::WritingUnitManifest, Action::WriteUnitManifest(out)),
        Err(e) => failure(e),
    };
    assert(dependencies_added(doc, new_doc, texts(deps@)));
    r
}

impl UnitStore {
    /// The content hash of the script.
    pub closed spec fn hash(&self) -> Seq<char> {
        self.hash@
    }

    /// The package name under which the unit is scaffolded.
    pub closed spec fn package(&self) -> Seq<char> {
        self.package@
    }

    pub closed spec fn state(&self) -> StoreState {
        self.state
    }

    /// A store for the script whose content hash is `hash` and whose file stem,
    /// if it has a usable one, is `stem`.
    pub fn new(hash: String, stem: Option<String>) -> (r: UnitStore)
        ensures
            r.hash() == hash@,
            r.package() == package_name_of(
                match stem {
                    Some(s) => Some(s@),
                    None => None,
                },
                hash@,
            ),
            r.state() == StoreState::Start,
    {
        let package = package_name(&stem, &hash);
        UnitStore { hash, package, state: StoreState::Start }
    }

    /// The unit's directory, relative to the workspace root.
    pub fn unit_dir(&self) -> (r: String)
        ensures
            r@ == unit_dir_of(self.hash()),
    {
        unit_dir(&self.hash)
    }

    /// The first action: look at the unit.
    pub fn begin(&mut self) -> (r: Action)
        requires
            old(self).state() == StoreState::Start,
        ensures
            final(self).hash() == old(self).hash(),
            final(self).package() == old(self).package(),
            final(self).state() == StoreState::Inspecting,
            r == Action::InspectUnit,
    {
        self.state = StoreState::Inspecting;
        Action::InspectUnit
    }

    /// Takes what came of the last action and returns the next one.
    pub fn step(&mut self, event: Event) -> (r: Action)
        ensures
            final(self).hash() == old(self).hash(),
            final(self).package() == old(self).package(),
            step_spec(old(self).hash(), old(self).package(), old(self).state(), event,
                final(self).state(), r),
    {
        let (next, act) = match &self.state {
            StoreState::Done => (StoreState::Done, Action::Finish),
            StoreState::Failed(f) => failure(*f),
            StoreState::Inspecting => match event {
                Event::UnitFound { manifest: Some(t), dir_exists: _ } => match read_manifest(t.as_str()) {
                    Ok(_) => (StoreState::CopyingScript, Action::CopyScript),
                    Err(e) => failure(e),
                },
                Event::UnitFound { manifest: None, dir_exists } => (
                    StoreState::Registering,
                    Action::ReadRootManifest { warn_dir_without_manifest: dir_exists },
                ),
                _ => failure(CacheError::Io),
            },
            StoreState::Registering => match event {
                Event::Text(t) => register(&self.hash, &t),
                _ => failure(CacheError::Io),
            },
            StoreState::WritingRoot => match event {
                Event::Written => (
                    StoreState::Scaffolding,
                    Action::Scaffold { package: self.package.clone() },
                ),
                _ => failure(CacheError::Io),
            },
            StoreState::Scaffolding => match event {
                Event::Scaffolded { success } => if success {
                    (StoreState::ReadingScript, Action::ReadScript)
                } else {
                    failure(CacheError::Subprocess)
                },
                _ => failure(CacheError::Io),
            },
            StoreState::ReadingScript => match event {
                Event::Text(src) => {
                    let deps = extract_dependencies(src.as_str());
                    if deps.len() == 0 {
                        (StoreState::CopyingScript, Action::CopyScript)
                    } else {
                        (StoreState::ReadingUnitManifest { deps }, Action::ReadUnitManifest)
                    }
                },
                _ => failure(CacheError::Io),
            },
            StoreState::ReadingUnitManifest { deps } => match event {
                Event::Text(t) => merge(deps, &t),
                _ => failure(CacheError::Io),
            },
            StoreState::WritingUnitManifest => match event {
                Event::Written => (StoreState::CopyingScript, Action::CopyScript),
                _ => failure(CacheError::Io),
            },
            StoreState::CopyingScript => match event {
                Event::Written => (StoreState::Done, Action::Finish),
                _ => failure(CacheError::Io),
            },
            StoreState::Start => failure(CacheError::Io),
        };
        self.state = next;
        act
    }
}

} // verus!
