//! Migrating a Volta home directory to the V1 layout: a fresh install gets
//! the layout created; an existing V0 install on Unix also loses the files
//! that V1 no longer uses. The marker file that records the migration is written
//! last, once every other step has succeeded.

use vstd::prelude::*;

use crate::command::Platform;
use crate::error::{copy_error, ErrorKind, ErrorView};
use crate::listing::{listing_view, DirEntry, DirEntryView};
use crate::text::{
    chars_of, copy_string, join_path, owned, path_join, string_from_chars, strings_view,
};

verus! {

/// The directories of the V1 layout, relative to the home directory.
pub open spec fn layout_dir_names() -> Seq<Seq<char>> {
    seq![
        "cache"@,
        "cache/node"@,
        "bin"@,
        "log"@,
        "tools"@,
        "tools/inventory"@,
        "tools/inventory/node"@,
        "tools/inventory/packages"@,
        "tools/inventory/yarn"@,
        "tools/image"@,
        "tools/image/node"@,
        "tools/image/packages"@,
        "tools/image/yarn"@,
        "tools/user"@,
        "tools/user/bins"@,
        "tools/user/packages"@,
        "tmp"@,
    ]
}

/// Every directory of the V1 layout under `root`: the root first, then each
/// layout directory joined onto it.
pub open spec fn layout_dirs(root: Seq<char>) -> Seq<Seq<char>> {
    seq![root] + layout_dir_names().map_values(|n: Seq<char>| path_join(root, n))
}

/// The V1 layout of a Volta home directory.
#[derive(Debug, PartialEq, Eq)]
pub struct VoltaHome {
    root: String,
}

impl View for VoltaHome {
    type V = Seq<char>;

    closed spec fn view(&self) -> Seq<char> {
        self.root@
    }
}

impl VoltaHome {
    /// The layout rooted at `root`.
    pub fn new(root: String) -> (h: VoltaHome)
        ensures
            h@ == root@,
    {
        VoltaHome { root }
    }

    /// The home directory itself.
    pub fn root(&self) -> (r: String)
        ensures
            r@ == self@,
    {
        copy_string(&self.root)
    }

    /// `root/cache`.
    pub fn cache_dir(&self) -> (r: String)
        ensures
            r@ == path_join(self@, "cache"@),
    {
        join_path(self.root.as_str(), "cache")
    }

    /// `root/bin`, where the shims live.
    pub fn shim_dir(&self) -> (r: String)
        ensures
            r@ == path_join(self@, "bin"@),
    {
        join_path(self.root.as_str(), "bin")
    }

    /// `root/tools`.
    pub fn tools_dir(&self) -> (r: String)
        ensures
            r@ == path_join(self@, "tools"@),
    {
        join_path(self.root.as_str(), "tools")
    }

    /// `root/tmp`.
    pub fn tmp_dir(&self) -> (r: String)
        ensures
            r@ == path_join(self@, "tmp"@),
    {
        join_path(self.root.as_str(), "tmp")
    }

    /// `root/layout.v1`, whose presence marks the migration as complete.
    pub fn layout_file(&self) -> (r: String)
        ensures
            r@ == path_join(self@, "layout.v1"@),
    {
        join_path(self.root.as_str(), "layout.v1")
    }

    /// Every directory that creating the layout makes, the root first.
    pub fn directories(&self) -> (dirs: Vec<String>)
        ensures
            strings_view(dirs@) == layout_dirs(self@),
    {
        let names: [&str; 17] = [
            "cache",
            "cache/node",
            "bin",
            "log",
            "tools",
            "tools/inventory",
            "tools/inventory/node",
            "tools/inventory/packages",
            "tools/inventory/yarn",
            "tools/image",
            "tools/image/node",
            "tools/image/packages",
            "tools/image/yarn",
            "tools/user",
            "tools/user/bins",
            "tools/user/packages",
            "tmp",
        ];
        assert(names@.map_values(|s: &str| s@) =~= layout_dir_names());
        let mut dirs: Vec<String> = Vec::new();
        dirs.push(copy_string(&self.root));
        let mut i: usize = 0;
        while i < 17
            invariant
                i <= 17,
                names@.map_values(|s: &str| s@) == layout_dir_names(),
                strings_view(dirs@) == seq![self@] + layout_dir_names().take(i as int).map_values(
                    |n: Seq<char>| path_join(self@, n),
                ),
            decreases 17 - i,
        {
            let d = join_path(self.root.as_str(), names[i]);
            proof {
                assert(names@.map_values(|s: &str| s@)[i as int] == names@[i as int]@);
                assert(names@[i as int]@ == layout_dir_names()[i as int]);
            }
            let ghost before = dirs@;
            dirs.push(d);
            assert(strings_view(dirs@) =~= strings_view(before).push(d@));
            assert(layout_dir_names().take(i + 1) =~= layout_dir_names().take(i as int).push(
                layout_dir_names()[i as int],
            ));
            assert(layout_dir_names().take(i + 1).map_values(|n: Seq<char>| path_join(self@, n))
                =~= layout_dir_names().take(i as int).map_values(
                |n: Seq<char>| path_join(self@, n),
            ).push(path_join(self@, layout_dir_names()[i as int])));
            assert(strings_view(dirs@) =~= seq![self@] + layout_dir_names().take(
                (i + 1) as int,
            ).map_values(|n: Seq<char>| path_join(self@, n)));
            i = i + 1;
        }
        assert(layout_dir_names().take(17) =~= layout_dir_names());
        dirs
    }
}

} // verus!

verus! {

/// The index of the last `.` in `name`, or -1 when there is none.
pub open spec fn last_dot(name: Seq<char>) -> int
    decreases name.len(),
{
    if name.len() == 0 {
        -1
    } else if name.last() == '.' {
        name.len() - 1
    } else {
        last_dot(name.drop_last())
    }
}

/// The stem of the file name `name`, as `Path::file_stem` gives it: the name
/// without its extension. A name without a dot, one whose only dot leads it,
/// and `..` are their own stem.
pub open spec fn file_stem(name: Seq<char>) -> Seq<char> {
    if name =~= seq!['.', '.'] {
        name
    } else if last_dot(name) <= 0 {
        name
    } else {
        name.subrange(0, last_dot(name))
    }
}

/// The stem of the file name `name`.
pub fn file_stem_of(name: &str) -> (stem: String)
    ensures
        stem@ == file_stem(name@),
{
    let v = chars_of(name);
    if v.len() == 2 && v[0] == '.' && v[1] == '.' {
        assert(v@ =~= seq!['.', '.']);
        return string_from_chars(&v);
    }
    let mut j: usize = v.len();
    assert(v@.take(j as int) =~= v@);
    while j > 0 && v[j - 1] != '.'
        invariant
            j <= v.len(),
            last_dot(v@) == last_dot(v@.take(j as int)),
        decreases j,
    {
        assert(v@.take(j as int).drop_last() =~= v@.take(j - 1));
        j = j - 1;
    }
    if j > 0 {
        assert(v@.take(j as int).last() == '.');
    } else {
        assert(v@.take(0) =~= Seq::<char>::empty());
    }
    if j <= 1 {
        string_from_chars(&v)
    } else {
        let mut out: Vec<char> = Vec::new();
        let mut k: usize = 0;
        while k < j - 1
            invariant
                k <= j - 1,
                j <= v.len(),
                out@ == v@.subrange(0, k as int),
            decreases j - 1 - k,
        {
            out.push(v[k]);
            k = k + 1;
        }
        string_from_chars(&out)
    }
}

/// A root entry that V1 no longer uses: a file whose stem is `load`
/// (`load.sh`, `load.zsh`, ...).
pub open spec fn load_script(e: DirEntryView) -> bool {
    e.is_file && file_stem(e.name) == "load"@
}

/// Whether `e` is a leftover `load` script.
pub fn is_load_script(e: &DirEntry) -> (b: bool)
    ensures
        b == load_script(e@),
{
    let stem = file_stem_of(e.name.as_str());
    e.is_file && stem == owned("load")
}

/// One step of a layout migration.
#[derive(Debug, PartialEq, Eq)]
pub enum MigrationStep {
    /// Create every directory of the layout (`dirs`, the root first).
    CreateLayout { root: String, dirs: Vec<String> },
    /// List the entries of the home directory.
    ListRoot { dir: String },
    /// Remove this file.
    DeleteFile { file: String },
    /// Remove this file if it exists.
    DeleteFileIfExists { file: String },
    /// Create the marker file that records the migration as complete.
    WriteLayoutMarker { file: String },
}

pub enum StepView {
    CreateLayout { root: Seq<char>, dirs: Seq<Seq<char>> },
    ListRoot { dir: Seq<char> },
    DeleteFile { file: Seq<char> },
    DeleteFileIfExists { file: Seq<char> },
    WriteLayoutMarker { file: Seq<char> },
}

impl View for MigrationStep {
    type V = StepView;

    open spec fn view(&self) -> StepView {
        match self {
            MigrationStep::CreateLayout { root, dirs } => StepView::CreateLayout {
                root: root@,
                dirs: strings_view(dirs@),
            },
            MigrationStep::ListRoot { dir } => StepView::ListRoot { dir: dir@ },
            MigrationStep::DeleteFile { file } => StepView::DeleteFile { file: file@ },
            MigrationStep::DeleteFileIfExists { file } => StepView::DeleteFileIfExists {
                file: file@,
            },
            MigrationStep::WriteLayoutMarker { file } => StepView::WriteLayoutMarker {
                file: file@,
            },
        }
    }
}

/// The error a failed step ends the migration with.
pub open spec fn step_error_view(step: StepView) -> ErrorView {
    match step {
        StepView::CreateLayout { root, .. } => ErrorView::CreateDirError { dir: root },
        StepView::ListRoot { dir } => ErrorView::ReadDirError { dir },
        StepView::DeleteFile { file } => ErrorView::DeleteFileError { file },
        StepView::DeleteFileIfExists { file } => ErrorView::DeleteFileError { file },
        StepView::WriteLayoutMarker { file } => ErrorView::CreateLayoutFileError { file },
    }
}

/// The error that ends a migration whose `step` failed.
pub fn step_error(step: &MigrationStep) -> (e: ErrorKind)
    ensures
        e@ == step_error_view(step@),
{
    match step {
        MigrationStep::CreateLayout { root, .. } => ErrorKind::CreateDirError {
            dir: copy_string(root),
        },
        MigrationStep::ListRoot { dir } => ErrorKind::ReadDirError { dir: copy_string(dir) },
        MigrationStep::DeleteFile { file } => ErrorKind::DeleteFileError {
            file: copy_string(file),
        },
        MigrationStep::DeleteFileIfExists { file } => ErrorKind::DeleteFileError {
            file: copy_string(file),
        },
        MigrationStep::WriteLayoutMarker { file } => ErrorKind::CreateLayoutFileError {
            file: copy_string(file),
        },
    }
}

/// A copy of `v`.
fn copy_strings(v: &Vec<String>) -> (r: Vec<String>)
    ensures
        strings_view(r@) == strings_view(v@),
{
    let mut r: Vec<String> = Vec::new();
    let mut i: usize = 0;
    while i < v.len()
        invariant
            i <= v.len(),
            strings_view(r@) == strings_view(v@.take(i as int)),
        decreases v.len() - i,
    {
        let ghost before = r@;
        r.push(copy_string(&v[i]));
        assert(strings_view(r@) =~= strings_view(before).push(v@[i as int]@));
        assert(v@.take(i + 1) =~= v@.take(i as int).push(v@[i as int]));
        assert(strings_view(v@.take(i + 1)) =~= strings_view(v@.take(i as int)).push(
            v@[i as int]@,
        ));
        i = i + 1;
    }
    assert(v@.take(v.len() as int) =~= v@);
    r
}

/// A copy of `step`.
pub fn copy_step(step: &MigrationStep) -> (r: MigrationStep)
    ensures
        r@ == step@,
{
    match step {
        MigrationStep::CreateLayout { root, dirs } => MigrationStep::CreateLayout {
            root: copy_string(root),
            dirs: copy_strings(dirs),
        },
        MigrationStep::ListRoot { dir } => MigrationStep::ListRoot { dir: copy_string(dir) },
        MigrationStep::DeleteFile { file } => MigrationStep::DeleteFile {
            file: copy_string(file),
        },
        MigrationStep::DeleteFileIfExists { file } => MigrationStep::DeleteFileIfExists {
            file: copy_string(file),
        },
        MigrationStep::WriteLayoutMarker { file } => MigrationStep::WriteLayoutMarker {
            file: copy_string(file),
        },
    }
}

/// Creating the layout under `root`.
pub open spec fn create_step(root: Seq<char>) -> StepView {
    StepView::CreateLayout { root, dirs: layout_dirs(root) }
}

/// Writing the marker that completes a migration to V1 under `root`.
pub open spec fn marker_step(root: Seq<char>) -> StepView {
    StepView::WriteLayoutMarker { file: path_join(root, "layout.v1"@) }
}

/// The whole migration of a fresh install: create the layout, then mark it.
pub open spec fn empty_plan(root: Seq<char>) -> Seq<StepView> {
    seq![create_step(root), marker_step(root)]
}

/// How the migration of a V0 install begins: create the layout, then list
/// the home directory.
pub open spec fn v0_start(root: Seq<char>) -> Seq<StepView> {
    seq![create_step(root), StepView::ListRoot { dir: root }]
}

/// The removal of every leftover `load` script among `entries`, in order.
pub open spec fn load_deletions(root: Seq<char>, entries: Seq<DirEntryView>) -> Seq<StepView>
    decreases entries.len(),
{
    if entries.len() == 0 {
        Seq::empty()
    } else {
        let rest = load_deletions(root, entries.drop_last());
        if load_script(entries.last()) {
            rest.push(StepView::DeleteFile { file: path_join(root, entries.last().name) })
        } else {
            rest
        }
    }
}

/// How the migration of a V0 install ends, once the home directory has been
/// listed: remove the `load` scripts, then the old `volta` and `shim`
/// binaries if they exist, then write the marker.
pub open spec fn v0_cleanup(root: Seq<char>, entries: Seq<DirEntryView>) -> Seq<StepView> {
    load_deletions(root, entries) + seq![
        StepView::DeleteFileIfExists { file: path_join(root, "volta"@) },
        StepView::DeleteFileIfExists { file: path_join(root, "shim"@) },
        marker_step(root),
    ]
}

/// Law: the `load` deletions of a listing remove exactly its leftover
/// `load` scripts, each under the home directory, and nothing else.
pub proof fn lemma_load_deletions(root: Seq<char>, entries: Seq<DirEntryView>)
    ensures
        forall|i: int|
            0 <= i < load_deletions(root, entries).len() ==> (#[trigger] load_deletions(
                root,
                entries,
            )[i] matches StepView::DeleteFile { file } && exists|j: int|
                0 <= j < entries.len() && load_script(entries[j]) && file == path_join(
                    root,
                    entries[j].name,
                )),
        forall|j: int|
            0 <= j < entries.len() && load_script(#[trigger] entries[j]) ==> load_deletions(
                root,
                entries,
            ).contains(StepView::DeleteFile { file: path_join(root, entries[j].name) }),
    decreases entries.len(),
{
    if entries.len() > 0 {
        let init = entries.drop_last();
        lemma_load_deletions(root, init);
        let rest = load_deletions(root, init);
        let all = load_deletions(root, entries);
        assert forall|i: int| 0 <= i < all.len() implies (#[trigger] all[i] matches StepView::DeleteFile {
            file,
        } && exists|j: int|
            0 <= j < entries.len() && load_script(entries[j]) && file == path_join(
                root,
                entries[j].name,
            )) by {
            if i < rest.len() {
                assert(all[i] == rest[i]);
                let file = rest[i]->DeleteFile_file;
                let j = choose|j: int|
                    0 <= j < init.len() && load_script(init[j]) && file == path_join(
                        root,
                        init[j].name,
                    );
                assert(entries[j] == init[j]);
            } else {
                assert(entries[entries.len() - 1] == entries.last());
            }
        }
        assert forall|j: int|
            0 <= j < entries.len() && load_script(#[trigger] entries[j]) implies all.contains(
            StepView::DeleteFile { file: path_join(root, entries[j].name) },
        ) by {
            let target = StepView::DeleteFile { file: path_join(root, entries[j].name) };
            if j < init.len() {
                assert(entries[j] == init[j]);
                assert(rest.contains(target));
                let k = choose|k: int| 0 <= k < rest.len() && rest[k] == target;
                assert(all[k] == target);
            } else {
                assert(all[all.len() - 1] == target);
            }
        }
    }
}

/// The views of a list of steps, in order.
pub open spec fn steps_view(v: Seq<MigrationStep>) -> Seq<StepView> {
    v.map_values(|s: MigrationStep| s@)
}

/// The step that creates the layout of `home`.
fn create_layout_step(home: &VoltaHome) -> (s: MigrationStep)
    ensures
        s@ == create_step(home@),
{
    MigrationStep::CreateLayout { root: home.root(), dirs: home.directories() }
}

/// The step that writes the marker of `home`.
fn layout_marker_step(home: &VoltaHome) -> (s: MigrationStep)
    ensures
        s@ == marker_step(home@),
{
    MigrationStep::WriteLayoutMarker { file: home.layout_file() }
}

/// The steps that finish migrating a V0 install whose home directory
/// `home` holds `entries`.
pub fn cleanup_steps(home: &VoltaHome, entries: &Vec<DirEntry>) -> (steps: Vec<MigrationStep>)
    ensures
        steps_view(steps@) == v0_cleanup(home@, listing_view(entries@)),
{
    let mut steps: Vec<MigrationStep> = Vec::new();
    let mut i: usize = 0;
    while i < entries.len()
        invariant
            i <= entries.len(),
            steps_view(steps@) == load_deletions(home@, listing_view(entries@).take(i as int)),
        decreases entries.len() - i,
    {
        let ghost before = steps@;
        assert(listing_view(entries@).take(i + 1).drop_last() =~= listing_view(entries@).take(
            i as int,
        ));
        assert(listing_view(entries@).take(i + 1).last() == entries@[i as int]@);
        if is_load_script(&entries[i]) {
            let file = join_path(home.root.as_str(), entries[i].name.as_str());
            steps.push(MigrationStep::DeleteFile { file });
            assert(steps_view(steps@) =~= steps_view(before).push(steps@.last()@));
        }
        i = i + 1;
    }
    assert(listing_view(entries@).take(entries.len() as int) =~= listing_view(entries@));
    let ghost deletions = steps@;
    steps.push(MigrationStep::DeleteFileIfExists { file: join_path(home.root.as_str(), "volta") });
    steps.push(MigrationStep::DeleteFileIfExists { file: join_path(home.root.as_str(), "shim") });
    steps.push(layout_marker_step(home));
    assert(steps_view(steps@) =~= steps_view(deletions) + seq![
        steps@[deletions.len() as int]@,
        steps@[deletions.len() + 1int]@,
        steps@[deletions.len() + 2int]@,
    ]);
    steps
}

} // verus!

verus! {

/// A Volta home in the V1 layout (used by Volta v0.7.0 - v0.7.2).
pub struct V1 {
    pub home: VoltaHome,
}

impl V1 {
    /// The V1 layout rooted at `home`.
    pub fn new(home: String) -> (v: V1)
        ensures
            v.home@ == home@,
    {
        V1 { home: VoltaHome::new(home) }
    }
}

/// A migration to the V1 layout, carried out one step at a time: the caller
/// performs each step that `next_step` gives and reports how it went.
pub struct Migration {
    home: VoltaHome,
    steps: Vec<MigrationStep>,
    next: usize,
    failed: Option<ErrorKind>,
    cleans_v0: bool,
    listing: Ghost<Seq<DirEntryView>>,
}

pub struct MigrationView {
    /// The home directory being migrated.
    pub root: Seq<char>,
    /// The steps planned so far, in order.
    pub steps: Seq<StepView>,
    /// How many steps have succeeded.
    pub next: nat,
    /// The error of the step that failed, if one did.
    pub failed: Option<ErrorView>,
    /// Whether the leftovers of a V0 install are cleaned up: an existing V0
    /// install migrated on Unix (else the layout is only created and marked).
    pub cleans_v0: bool,
    /// What the V0 home directory held, once it has been listed.
    pub listing: Seq<DirEntryView>,
}

impl View for Migration {
    type V = MigrationView;

    closed spec fn view(&self) -> MigrationView {
        MigrationView {
            root: self.home@,
            steps: steps_view(self.steps@),
            next: self.next as nat,
            failed: match self.failed {
                Some(e) => Some(e@),
                None => None,
            },
            cleans_v0: self.cleans_v0,
            listing: self.listing@,
        }
    }
}

/// The plan of a migration as it stands: for a fresh install the layout and
/// its marker; for a V0 install the layout and the listing, followed, once
/// the listing succeeded, by the cleanup it calls for.
pub open spec fn planned(m: MigrationView) -> Seq<StepView> {
    if !m.cleans_v0 {
        empty_plan(m.root)
    } else if m.next <= 1 {
        v0_start(m.root)
    } else {
        v0_start(m.root) + v0_cleanup(m.root, m.listing)
    }
}

/// A migration in a consistent state: its steps are the plan, no more steps
/// have succeeded than were planned, and a failure stopped it short.
pub open spec fn migration_wf(m: MigrationView) -> bool {
    &&& m.steps == planned(m)
    &&& m.next <= m.steps.len()
    &&& m.failed is Some ==> m.next < m.steps.len()
}

/// The step to carry out next: none once a step failed or all are done.
pub open spec fn next_step_view(m: MigrationView) -> Option<StepView> {
    if m.failed is None && m.next < m.steps.len() {
        Some(m.steps[m.next as int])
    } else {
        None
    }
}

/// How a migration ended, if it has: the error of the failed step, or
/// success once every step succeeded.
pub open spec fn outcome_view(m: MigrationView) -> Option<Result<Seq<char>, ErrorView>> {
    match m.failed {
        Some(e) => Some(Err(e)),
        None => if m.next == m.steps.len() {
            Some(Ok(m.root))
        } else {
            None
        },
    }
}

impl Migration {
    /// Migrates a new installation: creates the fresh V1 layout under
    /// `root`, then writes its marker file.
    pub fn from_empty(root: String) -> (m: Migration)
        ensures
            migration_wf(m@),
            m@.root == root@,
            !m@.cleans_v0,
            m@.next == 0,
            m@.failed is None,
    {
        let home = VoltaHome::new(root);
        let mut steps: Vec<MigrationStep> = Vec::new();
        steps.push(create_layout_step(&home));
        steps.push(layout_marker_step(&home));
        assert(steps_view(steps@) =~= empty_plan(home@));
        Migration {
            home,
            steps,
            next: 0,
            failed: None,
            cleans_v0: false,
            listing: Ghost(Seq::empty()),
        }
    }

    /// Migrates an existing V0 installation under `root`: creates the V1
    /// layout, removes the files that V1 no longer uses (on Unix, where V0
    /// left them), then writes the marker file.
    pub fn from_v0(root: String, platform: Platform) -> (m: Migration)
        ensures
            migration_wf(m@),
            m@.root == root@,
            m@.cleans_v0 == (platform is Unix),
            m@.next == 0,
            m@.failed is None,
    {
        if let Platform::Windows = platform {
            return Migration::from_empty(root);
        }
        let home = VoltaHome::new(root);
        let mut steps: Vec<MigrationStep> = Vec::new();
        steps.push(create_layout_step(&home));
        steps.push(MigrationStep::ListRoot { dir: home.root() });
        assert(steps_view(steps@) =~= v0_start(home@));
        Migration {
            home,
            steps,
            next: 0,
            failed: None,
            cleans_v0: true,
            listing: Ghost(Seq::empty()),
        }
    }

    /// The step to carry out next, if any.
    pub fn next_step(&self) -> (s: Option<MigrationStep>)
        requires
            migration_wf(self@),
        ensures
            match s {
                Some(step) => next_step_view(self@) == Some(step@),
                None => next_step_view(self@) is None,
            },
    {
        if self.failed.is_none() && self.next < self.steps.len() {
            Some(copy_step(&self.steps[self.next]))
        } else {
            None
        }
    }

    /// Records that the current step, which is not the listing, succeeded.
    pub fn step_done(&mut self)
        requires
            migration_wf(old(self)@),
            next_step_view(old(self)@) matches Some(s) && !(s is ListRoot),
        ensures
            migration_wf(final(self)@),
            final(self)@ == (MigrationView { next: old(self)@.next + 1, ..old(self)@ }),
    {
        proof {
            let m = self@;
            assert(m.steps.len() == self.steps@.len());
            if m.cleans_v0 && m.next <= 1 {
                assert(m.next == 0);
            }
        }
        assert(self.next < self.steps.len());
        self.next = self.next + 1;
    }

    /// Records that the listing of the home directory succeeded with
    /// `entries`; the steps that clean up after V0 are planned from it.
    pub fn root_listed(&mut self, entries: &Vec<DirEntry>)
        requires
            migration_wf(old(self)@),
            next_step_view(old(self)@) matches Some(s) && s is ListRoot,
        ensures
            migration_wf(final(self)@),
            final(self)@ == (MigrationView {
                steps: old(self)@.steps + v0_cleanup(old(self)@.root, listing_view(entries@)),
                next: old(self)@.next + 1,
                listing: listing_view(entries@),
                ..old(self)@
            }),
    {
        proof {
            let m = self@;
            assert(m.steps.len() == self.steps@.len());
            if !m.cleans_v0 {
                assert(m.steps[m.next as int] == empty_plan(m.root)[m.next as int]);
            } else if m.next >= 2 {
                let c = v0_cleanup(m.root, m.listing);
                let k = m.next - 2;
                assert(m.steps[m.next as int] == c[k]);
                lemma_load_deletions(m.root, m.listing);
            }
            assert(m.cleans_v0);
            assert(m.next == 1);
        }
        assert(self.next == 1);
        let cleanup = cleanup_steps(&self.home, entries);
        let mut steps: Vec<MigrationStep> = Vec::new();
        steps.push(copy_step(&self.steps[0]));
        steps.push(copy_step(&self.steps[1]));
        assert(steps_view(steps@) =~= steps_view(self.steps@));
        let ghost before = steps@;
        let mut i: usize = 0;
        while i < cleanup.len()
            invariant
                i <= cleanup.len(),
                steps_view(steps@) == steps_view(before) + steps_view(cleanup@.take(i as int)),
            decreases cleanup.len() - i,
        {
            let ghost prev = steps@;
            steps.push(copy_step(&cleanup[i]));
            assert(steps_view(steps@) =~= steps_view(prev).push(cleanup@[i as int]@));
            assert(cleanup@.take(i + 1) =~= cleanup@.take(i as int).push(cleanup@[i as int]));
            assert(steps_view(cleanup@.take(i + 1)) =~= steps_view(cleanup@.take(i as int)).push(
                cleanup@[i as int]@,
            ));
            i = i + 1;
        }
        assert(cleanup@.take(cleanup.len() as int) =~= cleanup@);
        self.steps = steps;
        self.listing = Ghost(listing_view(entries@));
        self.next = 2;
    }

    /// Records that the current step failed: the migration stops with the
    /// error of that step.
    pub fn step_failed(&mut self)
        requires
            migration_wf(old(self)@),
            next_step_view(old(self)@) is Some,
        ensures
            migration_wf(final(self)@),
            final(self)@ == (MigrationView {
                failed: Some(step_error_view(old(self)@.steps[old(self)@.next as int])),
                ..old(self)@
            }),
    {
        let e = step_error(&self.steps[self.next]);
        self.failed = Some(e);
    }

    /// How the migration ended: `None` while steps remain, the error of the
    /// failed step, or the migrated V1 home once every step succeeded.
    pub fn outcome(&self) -> (r: Option<Result<V1, ErrorKind>>)
        requires
            migration_wf(self@),
        ensures
            match outcome_view(self@) {
                None => r is None,
                Some(Err(e)) => r matches Some(Err(f)) && f@ == e,
                Some(Ok(root)) => r matches Some(Ok(v)) && v.home@ == root,
            },
    {
        match &self.failed {
            Some(e) => Some(Err(copy_error(e))),
            None => if self.next == self.steps.len() {
                Some(Ok(V1 { home: VoltaHome::new(self.home.root()) }))
            } else {
                None
            },
        }
    }
}

} // verus!

verus! {

/// Law: the marker file is written only once all other migration steps are
/// finished. It is handed out only as the last planned step, after every
/// earlier step succeeded and none failed, and no earlier step writes it;
/// and a migration succeeds only by having written it.
pub proof fn lemma_marker_written_last(m: MigrationView)
    requires
        migration_wf(m),
    ensures
        next_step_view(m) matches Some(StepView::WriteLayoutMarker { .. }) ==> {
            &&& m.failed is None
            &&& m.next == m.steps.len() - 1
            &&& forall|i: int| 0 <= i < m.next ==> !(#[trigger] m.steps[i] is WriteLayoutMarker)
        },
        outcome_view(m) matches Some(Ok(_)) ==> {
            &&& m.next == m.steps.len()
            &&& m.steps.last() == marker_step(m.root)
        },
{
    if !m.cleans_v0 {
    } else if m.next <= 1 {
        if outcome_view(m) matches Some(Ok(_)) {
            assert(false);
        }
    } else {
        let c = v0_cleanup(m.root, m.listing);
        lemma_load_deletions(m.root, m.listing);
        let d = load_deletions(m.root, m.listing);
        assert forall|i: int| 0 <= i < m.steps.len() - 1 implies !(
        #[trigger] m.steps[i] is WriteLayoutMarker) by {
            if i >= 2 && i - 2 < d.len() {
                assert(m.steps[i] == d[i - 2]);
            }
        }
    }
}

/// Law: migrating a V0 install removes exactly its leftover `load` scripts
/// (files in the home directory whose stem is `load`) and the old `volta`
/// and `shim` binaries, all under the home directory, and nothing else.
pub proof fn lemma_v0_cleanup_deletes(root: Seq<char>, entries: Seq<DirEntryView>)
    ensures
        forall|i: int|
            0 <= i < v0_cleanup(root, entries).len() ==> match #[trigger] v0_cleanup(
                root,
                entries,
            )[i] {
                StepView::DeleteFile { file } => exists|j: int|
                    0 <= j < entries.len() && load_script(entries[j]) && file == path_join(
                        root,
                        entries[j].name,
                    ),
                StepView::DeleteFileIfExists { file } => file == path_join(root, "volta"@)
                    || file == path_join(root, "shim"@),
                StepView::WriteLayoutMarker { file } => file == path_join(root, "layout.v1"@),
                _ => false,
            },
        forall|j: int|
            0 <= j < entries.len() && load_script(#[trigger] entries[j]) ==> v0_cleanup(
                root,
                entries,
            ).contains(StepView::DeleteFile { file: path_join(root, entries[j].name) }),
{
    lemma_load_deletions(root, entries);
    let d = load_deletions(root, entries);
    let c = v0_cleanup(root, entries);
    assert forall|i: int| 0 <= i < c.len() implies match #[trigger] c[i] {
        StepView::DeleteFile { file } => exists|j: int|
            0 <= j < entries.len() && load_script(entries[j]) && file == path_join(
                root,
                entries[j].name,
            ),
        StepView::DeleteFileIfExists { file } => file == path_join(root, "volta"@) || file
            == path_join(root, "shim"@),
        StepView::WriteLayoutMarker { file } => file == path_join(root, "layout.v1"@),
        _ => false,
    } by {
        if i < d.len() {
            assert(c[i] == d[i]);
        }
    }
    assert forall|j: int|
        0 <= j < entries.len() && load_script(#[trigger] entries[j]) implies c.contains(
        StepView::DeleteFile { file: path_join(root, entries[j].name) },
    ) by {
        let target = StepView::DeleteFile { file: path_join(root, entries[j].name) };
        assert(d.contains(target));
        let k = choose|k: int| 0 <= k < d.len() && d[k] == target;
        assert(c[k] == target);
    }
}

/// Where `last_dot` points: at a `.`, after which `name` holds no other.
proof fn lemma_last_dot_bounds(name: Seq<char>)
    ensures
        -1 <= last_dot(name) < name.len(),
        last_dot(name) >= 0 ==> name[last_dot(name)] == '.',
        forall|i: int| last_dot(name) < i < name.len() ==> name[i] != '.',
    decreases name.len(),
{
    if name.len() > 0 && name.last() != '.' {
        let init = name.drop_last();
        lemma_last_dot_bounds(init);
        assert forall|i: int| last_dot(name) < i < name.len() implies name[i] != '.' by {
            if i < name.len() - 1 {
                assert(name[i] == init[i]);
            }
        }
    }
}

/// A `.` at `k` with none after it is the last dot of `name`.
proof fn lemma_last_dot_at(name: Seq<char>, k: int)
    requires
        0 <= k < name.len(),
        name[k] == '.',
        forall|i: int| k < i < name.len() ==> name[i] != '.',
    ensures
        last_dot(name) == k,
    decreases name.len(),
{
    if k != name.len() - 1 {
        assert(name.last() != '.');
        lemma_last_dot_at(name.drop_last(), k);
    }
}

/// A file name that `Path::file_stem` reads as `load`: `load` itself, or
/// `load.` followed by an extension that holds no further dot.
pub open spec fn load_file_name(name: Seq<char>) -> bool {
    name == "load"@ || exists|ext: Seq<char>| !ext.contains('.') && name == "load."@ + ext
}

/// Law: a root entry is a leftover `load` script exactly when it is a file
/// named `load`, or `load.` followed by an extension that holds no further
/// dot, whatever that extension is (`load.sh`, `load.zsh`, `load.fish`,
/// `load.`).
pub proof fn lemma_load_script_names(e: DirEntryView)
    ensures
        load_script(e) <==> (e.is_file && (e.name == "load"@ || (exists|ext: Seq<char>|
            !ext.contains('.') && e.name == "load."@ + ext))),
        load_script(e) <==> (e.is_file && load_file_name(e.name)),
{
    reveal_strlit("load");
    reveal_strlit("load.");
    let name = e.name;
    lemma_last_dot_bounds(name);
    if name == "load"@ {
        if last_dot(name) >= 0 {
            assert(name[last_dot(name)] != '.');
        }
        assert(!(name =~= seq!['.', '.']));
        assert(file_stem(name) == "load"@);
    }
    if exists|ext: Seq<char>| !ext.contains('.') && name == "load."@ + ext {
        let ext = choose|ext: Seq<char>| !ext.contains('.') && name == "load."@ + ext;
        assert forall|i: int| 4 < i < name.len() implies name[i] != '.' by {
            assert(name[i] == ext[i - 5]);
            if ext[i - 5] == '.' {
                assert(ext.contains('.'));
            }
        }
        lemma_last_dot_at(name, 4);
        assert(!(name =~= seq!['.', '.']));
        assert(name.subrange(0, 4) =~= "load"@);
    }
    if file_stem(name) == "load"@ && name != "load"@ {
        assert(!(name =~= seq!['.', '.'])) by {
            if name =~= seq!['.', '.'] {
                assert(file_stem(name).len() == 2);
            }
        }
        assert(last_dot(name) > 0);
        let k = last_dot(name);
        assert(name.subrange(0, k) == "load"@);
        assert(k == 4);
        let ext = name.subrange(5, name.len() as int);
        assert(!ext.contains('.')) by {
            if ext.contains('.') {
                let i = choose|i: int| 0 <= i < ext.len() && ext[i] == '.';
                assert(name[i + 5] == '.');
            }
        }
        assert(name =~= "load."@ + ext) by {
            assert(name[4] == '.');
            assert forall|i: int| 0 <= i < 4 implies name[i] == "load"@[i] by {
                assert(name.subrange(0, 4)[i] == name[i]);
            }
        }
    }
}

/// Deleting the file `name` in the home directory `root`.
pub open spec fn delete_in(root: Seq<char>, name: Seq<char>) -> StepView {
    StepView::DeleteFile { file: path_join(root, name) }
}

/// Law: migrating a V0 install deletes every file in the home directory
/// named `load` or `load.` with an extension that holds no further dot,
/// whatever the extension; and each file it deletes outright is one of
/// these, taken from the listing.
pub proof fn lemma_v0_cleanup_removes_load_files(root: Seq<char>, entries: Seq<DirEntryView>)
    ensures
        forall|j: int|
            #![trigger entries[j]]
            0 <= j < entries.len() && entries[j].is_file && load_file_name(entries[j].name)
                ==> v0_cleanup(root, entries).contains(delete_in(root, entries[j].name)),
        forall|i: int|
            #![trigger v0_cleanup(root, entries)[i]]
            0 <= i < v0_cleanup(root, entries).len() && v0_cleanup(root, entries)[i] is DeleteFile
                ==> exists|j: int|
                0 <= j < entries.len() && entries[j].is_file && load_file_name(entries[j].name)
                    && v0_cleanup(root, entries)[i] == delete_in(root, entries[j].name),
{
    lemma_v0_cleanup_deletes(root, entries);
    let c = v0_cleanup(root, entries);
    assert forall|j: int|
        #![trigger entries[j]]
        0 <= j < entries.len() && entries[j].is_file && load_file_name(entries[j].name) implies c.contains(
        delete_in(root, entries[j].name),
    ) by {
        lemma_load_script_names(entries[j]);
    }
    assert forall|i: int|
        #![trigger c[i]]
        0 <= i < c.len() && c[i] is DeleteFile implies exists|j: int|
        0 <= j < entries.len() && entries[j].is_file && load_file_name(entries[j].name) && c[i]
            == delete_in(root, entries[j].name) by {
        let file = c[i]->DeleteFile_file;
        let j = choose|j: int|
            0 <= j < entries.len() && load_script(entries[j]) && file == path_join(
                root,
                entries[j].name,
            );
        lemma_load_script_names(entries[j]);
    }
}

/// Law: migrating a fresh install removes nothing: it creates the layout
/// and writes the marker.
pub proof fn lemma_empty_migration_removes_nothing(root: Seq<char>)
    ensures
        forall|i: int|
            0 <= i < empty_plan(root).len() ==> !(#[trigger] empty_plan(root)[i] is DeleteFile)
                && !(empty_plan(root)[i] is DeleteFileIfExists),
        empty_plan(root) == seq![create_step(root), marker_step(root)],
{
}

} // verus!
