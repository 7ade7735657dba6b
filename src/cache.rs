//! The local cache of extracted Electron builds.
//!
//! Each build lives in a directory of the data root named by its target
//! triple, `v{version}-{platform}-{arch}`; a hit is the existence of the
//! build's executable in that directory. An install therefore never writes there directly:
//! it extracts into a sibling staging directory and renames that into place
//! once extraction has succeeded, so an interrupted install leaves no entry.

use vstd::prelude::*;
use vstd::string::*;
use crate::error::ElectronError;
use crate::target::{arch_name, exe_relative_path, platform_name, TargetDescriptor};
use crate::version::{version_text, Version, VersionModel};

verus! {

/// The cache key of a build: `v{version}-{platform}-{arch}`.
pub open spec fn triple_text(v: VersionModel, t: TargetDescriptor) -> Seq<char> {
    seq!['v'] + version_text(v) + seq!['-'] + platform_name(t.platform) + seq!['-']
        + arch_name(t.arch)
}

/// The name of the release asset that holds a build:
/// `electron-v{version}-{platform}-{arch}.zip`.
pub open spec fn asset_name_text(v: VersionModel, t: TargetDescriptor) -> Seq<char> {
    "electron-"@ + triple_text(v, t) + ".zip"@
}

pub open spec fn path_join(dir: Seq<char>, name: Seq<char>) -> Seq<char> {
    dir + seq!['/'] + name
}

/// The cache key of a build.
pub fn target_triple(v: &Version, t: TargetDescriptor) -> (r: String)
    ensures
        r@ == triple_text(v@, t),
{
    proof { reveal_strlit("v"); reveal_strlit("-"); }
    let out = String::from_str("v").concat(v.render().as_str()).concat("-")
        .concat(t.platform.name()).concat("-").concat(t.arch.name());
    assert(out@ =~= triple_text(v@, t));
    out
}

/// The name of the release asset that holds a build.
pub fn asset_name(v: &Version, t: TargetDescriptor) -> (r: String)
    ensures
        r@ == asset_name_text(v@, t),
{
    proof { reveal_strlit("electron-"); reveal_strlit(".zip"); }
    let out = String::from_str("electron-").concat(target_triple(v, t).as_str()).concat(".zip");
    assert(out@ =~= asset_name_text(v@, t));
    out
}

fn join(dir: &str, name: &str) -> (r: String)
    ensures
        r@ == path_join(dir@, name@),
{
    proof { reveal_strlit("/"); }
    String::from_str(dir).concat("/").concat(name)
}

/// Where the cache keeps things: `data_dir` holds the extracted builds,
/// `cache_dir` the downloaded archives while they are in use.
#[derive(Debug)]
pub struct CacheLayout {
    pub data_dir: String,
    pub cache_dir: String,
}

/// The directory of a build.
pub open spec fn entry_dir_text(data_dir: Seq<char>, v: VersionModel, t: TargetDescriptor) -> Seq<char> {
    path_join(data_dir, triple_text(v, t))
}

/// The directory that a build is extracted into before it is renamed into
/// place: a hidden sibling of the entry.
pub open spec fn staging_dir_text(data_dir: Seq<char>, v: VersionModel, t: TargetDescriptor) -> Seq<char> {
    path_join(data_dir, seq!['.'] + triple_text(v, t) + ".partial"@)
}

/// Where a build's archive is downloaded to.
pub open spec fn archive_path_text(cache_dir: Seq<char>, v: VersionModel, t: TargetDescriptor) -> Seq<char> {
    path_join(cache_dir, asset_name_text(v, t))
}

/// The executable of a build.
pub open spec fn exe_path_text(data_dir: Seq<char>, v: VersionModel, t: TargetDescriptor) -> Seq<char> {
    path_join(entry_dir_text(data_dir, v, t), exe_relative_path(t.platform))
}

impl CacheLayout {
    pub fn entry_dir(&self, v: &Version, t: TargetDescriptor) -> (r: String)
        ensures
            r@ == entry_dir_text(self.data_dir@, v@, t),
    {
        join(self.data_dir.as_str(), target_triple(v, t).as_str())
    }

    pub fn staging_dir(&self, v: &Version, t: TargetDescriptor) -> (r: String)
        ensures
            r@ == staging_dir_text(self.data_dir@, v@, t),
    {
        proof { reveal_strlit("."); reveal_strlit(".partial"); }
        let name = String::from_str(".").concat(target_triple(v, t).as_str()).concat(".partial");
        join(self.data_dir.as_str(), name.as_str())
    }

    pub fn archive_path(&self, v: &Version, t: TargetDescriptor) -> (r: String)
        ensures
            r@ == archive_path_text(self.cache_dir@, v@, t),
    {
        join(self.cache_dir.as_str(), asset_name(v, t).as_str())
    }

    pub fn exe_path(&self, v: &Version, t: TargetDescriptor) -> (r: String)
        ensures
            r@ == exe_path_text(self.data_dir@, v@, t),
    {
        join(self.entry_dir(v, t).as_str(), t.platform.exe_name())
    }

    /// The cache's answer for a build, given whether its executable exists
    /// (which implies its entry directory does): the path of the executable
    /// on a hit. An empty or partly filled entry directory is a miss.
    pub fn lookup(&self, v: &Version, t: TargetDescriptor, exe_exists: bool) -> (r: Option<String>)
        ensures
            r is Some <==> exe_exists,
            r matches Some(p) ==> p@ == exe_path_text(self.data_dir@, v@, t),
    {
        if exe_exists {
            Some(self.exe_path(v, t))
        } else {
            None
        }
    }

    /// Whether a build must be installed: when a fresh copy is forced, or
    /// when its executable does not exist.
    pub fn needs_install(force: bool, exe_exists: bool) -> (r: bool)
        ensures
            r == (force || !exe_exists),
    {
        force || !exe_exists
    }
}

/// One filesystem or network action of an install, or how the install ended.
#[derive(Debug)]
pub enum InstallStep {
    /// Create a directory and its missing parents.
    CreateDir(String),
    /// Remove a directory tree if it exists.
    RemoveDir(String),
    /// Download `url` into the file `to`, in chunks.
    Download { url: String, to: String },
    /// Extract the zip archive `archive` into the directory `into`.
    Extract { archive: String, into: String },
    /// Remove a file.
    RemoveFile(String),
    /// Rename the directory `from` to `to`.
    Promote { from: String, to: String },
    /// The install is complete; this is the path of the executable.
    Done(String),
    Failed(ElectronError),
}

/// What an install step denotes.
pub enum InstallAction {
    CreateDir(Seq<char>),
    RemoveDir(Seq<char>),
    Download { url: Seq<char>, to: Seq<char> },
    Extract { archive: Seq<char>, into: Seq<char> },
    RemoveFile(Seq<char>),
    Promote { from: Seq<char>, to: Seq<char> },
    Done(Seq<char>),
    Failed,
}

impl View for InstallStep {
    type V = InstallAction;

    open spec fn view(&self) -> InstallAction {
        match self {
            InstallStep::CreateDir(p) => InstallAction::CreateDir(p@),
            InstallStep::RemoveDir(p) => InstallAction::RemoveDir(p@),
            InstallStep::Download { url, to } => InstallAction::Download { url: url@, to: to@ },
            InstallStep::Extract { archive, into } => InstallAction::Extract { archive: archive@, into: into@ },
            InstallStep::RemoveFile(p) => InstallAction::RemoveFile(p@),
            InstallStep::Promote { from, to } => InstallAction::Promote { from: from@, to: to@ },
            InstallStep::Done(p) => InstallAction::Done(p@),
            InstallStep::Failed(_) => InstallAction::Failed,
        }
    }
}

/// The paths and the address of one install.
pub struct InstallPlan {
    pub url: Seq<char>,
    pub data_dir: Seq<char>,
    pub cache_dir: Seq<char>,
    pub archive: Seq<char>,
    pub staging: Seq<char>,
    pub entry: Seq<char>,
    pub exe: Seq<char>,
}

pub open spec fn plan_for(layout: &CacheLayout, v: VersionModel, t: TargetDescriptor, url: Seq<char>) -> InstallPlan {
    InstallPlan {
        url,
        data_dir: layout.data_dir@,
        cache_dir: layout.cache_dir@,
        archive: archive_path_text(layout.cache_dir@, v, t),
        staging: staging_dir_text(layout.data_dir@, v, t),
        entry: entry_dir_text(layout.data_dir@, v, t),
        exe: exe_path_text(layout.data_dir@, v, t),
    }
}

/// The number of actions of an install.
pub const INSTALL_ACTIONS: usize = 8;

/// The `k`-th action of an install, in order: make the data and archive
/// directories; clear a stale staging directory; download the archive;
/// extract it into the staging directory; remove the archive; clear the old
/// entry; rename the staging directory into place. After that, done.
pub open spec fn planned_action(p: InstallPlan, k: int) -> InstallAction {
    if k == 0 {
        InstallAction::CreateDir(p.data_dir)
    } else if k == 1 {
        InstallAction::CreateDir(p.cache_dir)
    } else if k == 2 {
        InstallAction::RemoveDir(p.staging)
    } else if k == 3 {
        InstallAction::Download { url: p.url, to: p.archive }
    } else if k == 4 {
        InstallAction::Extract { archive: p.archive, into: p.staging }
    } else if k == 5 {
        InstallAction::RemoveFile(p.archive)
    } else if k == 6 {
        InstallAction::RemoveDir(p.entry)
    } else if k == 7 {
        InstallAction::Promote { from: p.staging, to: p.entry }
    } else {
        InstallAction::Done(p.exe)
    }
}

/// The directories and files whose existence an action's success implies,
/// on a model of the filesystem as the set of paths that exist.
pub open spec fn effect(fs: Set<Seq<char>>, a: InstallAction) -> Set<Seq<char>> {
    match a {
        InstallAction::CreateDir(p) => fs.insert(p),
        InstallAction::RemoveDir(p) => fs.remove(p),
        InstallAction::Download { url, to } => fs.insert(to),
        InstallAction::Extract { archive, into } => fs.insert(into),
        InstallAction::RemoveFile(p) => fs.remove(p),
        InstallAction::Promote { from, to } => fs.remove(from).insert(to),
        _ => fs,
    }
}

/// The filesystem after the first `k` actions of an install succeeded.
pub open spec fn after_actions(fs: Set<Seq<char>>, p: InstallPlan, k: nat) -> Set<Seq<char>>
    decreases k,
{
    if k == 0 {
        fs
    } else {
        effect(after_actions(fs, p, (k - 1) as nat), planned_action(p, k - 1))
    }
}

/// The state of one install.
pub struct Installer {
    url: String,
    data_dir: String,
    cache_dir: String,
    archive: String,
    staging: String,
    entry: String,
    exe: String,
    stage: usize,
    failed: bool,
}

impl Installer {
    pub closed spec fn plan(&self) -> InstallPlan {
        InstallPlan {
            url: self.url@,
            data_dir: self.data_dir@,
            cache_dir: self.cache_dir@,
            archive: self.archive@,
            staging: self.staging@,
            entry: self.entry@,
            exe: self.exe@,
        }
    }

    /// How many actions have succeeded so far.
    pub closed spec fn stage(&self) -> nat {
        self.stage as nat
    }

    /// Whether an action failed, which ends the install.
    pub closed spec fn failed(&self) -> bool {
        self.failed
    }

    /// Whether the install is over, done or failed.
    pub open spec fn finished(&self) -> bool {
        self.failed() || self.stage() >= INSTALL_ACTIONS
    }

    /// Starts the install of build `v` for target `t` from the archive at `url`.
    pub fn new(layout: &CacheLayout, v: &Version, t: TargetDescriptor, url: &str) -> (r: (Installer, InstallStep))
        ensures
            r.0.plan() == plan_for(layout, v@, t, url@),
            r.0.stage() == 0,
            !r.0.failed(),
            r.1@ == planned_action(r.0.plan(), 0),
    {
        let ins = Installer {
            url: String::from_str(url),
            data_dir: layout.data_dir.clone(),
            cache_dir: layout.cache_dir.clone(),
            archive: layout.archive_path(v, t),
            staging: layout.staging_dir(v, t),
            entry: layout.entry_dir(v, t),
            exe: layout.exe_path(v, t),
            stage: 0,
            failed: false,
        };
        let step = ins.action(0);
        (ins, step)
    }

    fn action(&self, k: usize) -> (r: InstallStep)
        ensures
            r@ == planned_action(self.plan(), k as int),
    {
        if k == 0 {
            InstallStep::CreateDir(self.data_dir.clone())
        } else if k == 1 {
            InstallStep::CreateDir(self.cache_dir.clone())
        } else if k == 2 {
            InstallStep::RemoveDir(self.staging.clone())
        } else if k == 3 {
            InstallStep::Download { url: self.url.clone(), to: self.archive.clone() }
        } else if k == 4 {
            InstallStep::Extract { archive: self.archive.clone(), into: self.staging.clone() }
        } else if k == 5 {
            InstallStep::RemoveFile(self.archive.clone())
        } else if k == 6 {
            InstallStep::RemoveDir(self.entry.clone())
        } else if k == 7 {
            InstallStep::Promote { from: self.staging.clone(), to: self.entry.clone() }
        } else {
            InstallStep::Done(self.exe.clone())
        }
    }

    /// Takes the outcome of the last action asked for. On success the next
    /// action follows; a failure ends the install with an error for that
    /// action: a transfer error for the download, an archive error for the
    /// extraction, a filesystem error naming the path otherwise.
    pub fn on_done(&mut self, outcome: Result<(), String>) -> (r: InstallStep)
        requires
            !old(self).finished(),
        ensures
            final(self).plan() == old(self).plan(),
            outcome is Ok ==> {
                &&& final(self).stage() == old(self).stage() + 1
                &&& !final(self).failed()
                &&& r@ == planned_action(old(self).plan(), old(self).stage() + 1 as int)
            },
            outcome matches Err(msg) ==> {
                &&& final(self).failed()
                &&& final(self).stage() == old(self).stage()
                &&& r matches InstallStep::Failed(e) && install_failure(old(self).plan(), old(self).stage(), msg, e)
            },
    {
        match outcome {
            Ok(()) => {
                self.stage = self.stage + 1;
                self.action(self.stage)
            },
            Err(msg) => {
                self.failed = true;
                let e = if self.stage == 3 {
                    ElectronError::HttpError(msg)
                } else if self.stage == 4 {
                    ElectronError::ZipError(msg)
                } else {
                    let what = self.action(self.stage);
                    ElectronError::IoError(step_path(&what), msg)
                };
                InstallStep::Failed(e)
            },
        }
    }
}

/// The error for action `k` of an install failing with `msg`: a transfer
/// error for the download, an archive error for the extraction, a filesystem
/// error naming the path otherwise.
pub open spec fn install_failure(p: InstallPlan, k: nat, msg: String, e: ElectronError) -> bool {
    &&& k == 3 ==> (e matches ElectronError::HttpError(m) && m == msg)
    &&& k == 4 ==> (e matches ElectronError::ZipError(m) && m == msg)
    &&& k != 3 && k != 4 ==> (e matches ElectronError::IoError(what, m)
        && m == msg && what@ == action_path(planned_action(p, k as int)))
}

/// The path that an action works on.
pub open spec fn action_path(a: InstallAction) -> Seq<char> {
    match a {
        InstallAction::CreateDir(p) => p,
        InstallAction::RemoveDir(p) => p,
        InstallAction::Download { url, to } => to,
        InstallAction::Extract { archive, into } => into,
        InstallAction::RemoveFile(p) => p,
        InstallAction::Promote { from, to } => to,
        InstallAction::Done(p) => p,
        InstallAction::Failed => Seq::empty(),
    }
}

fn step_path(s: &InstallStep) -> (r: String)
    ensures
        r@ == action_path(s@),
{
    match s {
        InstallStep::CreateDir(p) => p.clone(),
        InstallStep::RemoveDir(p) => p.clone(),
        InstallStep::Download { url, to } => to.clone(),
        InstallStep::Extract { archive, into } => into.clone(),
        InstallStep::RemoveFile(p) => p.clone(),
        InstallStep::Promote { from, to } => to.clone(),
        InstallStep::Done(p) => p.clone(),
        InstallStep::Failed(_) => String::new(),
    }
}

/// Extraction never writes the entry directory that a lookup checks: the
/// staging directory it extracts into is another path, so an interrupted
/// extraction leaves the cache without the entry, which is a miss.
pub proof fn lemma_staging_is_not_entry(data_dir: Seq<char>, v: VersionModel, t: TargetDescriptor)
    ensures
        staging_dir_text(data_dir, v, t) != entry_dir_text(data_dir, v, t),
{
    assert(staging_dir_text(data_dir, v, t).len() != entry_dir_text(data_dir, v, t).len());
}

/// Of the directories that an install creates, extracts into or renames to,
/// only the final rename is the entry directory, and it comes after the
/// extraction into the staging directory.
pub proof fn lemma_only_promotion_creates_entry(layout: &CacheLayout, v: VersionModel, t: TargetDescriptor, url: Seq<char>, k: int)
    requires
        0 <= k < INSTALL_ACTIONS,
        layout.cache_dir@ != entry_dir_text(layout.data_dir@, v, t),
    ensures
        planned_action(plan_for(layout, v, t, url), k) matches InstallAction::Extract { archive, into }
            ==> into != entry_dir_text(layout.data_dir@, v, t),
        planned_action(plan_for(layout, v, t, url), k) matches InstallAction::Promote { from, to }
            ==> k == 7 && to == entry_dir_text(layout.data_dir@, v, t),
        planned_action(plan_for(layout, v, t, url), k) matches InstallAction::CreateDir(p)
            ==> p != entry_dir_text(layout.data_dir@, v, t),
{
    lemma_staging_is_not_entry(layout.data_dir@, v, t);
    let e = entry_dir_text(layout.data_dir@, v, t);
    assert(layout.data_dir@.len() < e.len());
}

/// An install interrupted before its final rename, after any number of
/// successful actions, leaves no entry directory where there was none: a
/// later lookup of the build is a miss, never a hit on a half-extracted
/// tree. (The archive directory and the archive are taken to lie elsewhere
/// than the entry.)
pub proof fn lemma_interrupted_install_leaves_no_entry(
    layout: &CacheLayout,
    v: VersionModel,
    t: TargetDescriptor,
    url: Seq<char>,
    fs: Set<Seq<char>>,
    k: nat,
)
    requires
        k < INSTALL_ACTIONS,
        !fs.contains(entry_dir_text(layout.data_dir@, v, t)),
        layout.cache_dir@ != entry_dir_text(layout.data_dir@, v, t),
        archive_path_text(layout.cache_dir@, v, t) != entry_dir_text(layout.data_dir@, v, t),
    ensures
        !after_actions(fs, plan_for(layout, v, t, url), k).contains(entry_dir_text(layout.data_dir@, v, t)),
    decreases k,
{
    if k > 0 {
        lemma_interrupted_install_leaves_no_entry(layout, v, t, url, fs, (k - 1) as nat);
        lemma_staging_is_not_entry(layout.data_dir@, v, t);
        let e = entry_dir_text(layout.data_dir@, v, t);
        assert(layout.data_dir@.len() < e.len());
    }
}

/// After every action of an install has succeeded, whatever the filesystem
/// held before, the build's entry directory exists: the extracted tree has
/// been renamed into place, so a lookup of the same build, which probes the
/// executable in it, is a hit whenever the archive held that executable.
pub proof fn lemma_install_then_lookup_hits(layout: &CacheLayout, v: VersionModel, t: TargetDescriptor, url: Seq<char>, fs: Set<Seq<char>>)
    ensures
        after_actions(fs, plan_for(layout, v, t, url), INSTALL_ACTIONS as nat)
            .contains(entry_dir_text(layout.data_dir@, v, t)),
{
    let p = plan_for(layout, v, t, url);
    assert(after_actions(fs, p, 8) == effect(after_actions(fs, p, 7), planned_action(p, 7)));
}

} // verus!
