//! The whole acquisition: ensure that a build satisfying the options is
//! available locally and return a handle to it.
//!
//! With an installed version that the range admits, and no forced download,
//! its cache entry is probed first; a hit ends the acquisition without a
//! single catalog request. Otherwise the version is resolved against the
//! catalog, its asset is picked, its cache entry is probed, and it is
//! installed when missing or when a fresh download is forced.

use vstd::prelude::*;
use crate::cache::{
    asset_name_text, exe_path_text, install_failure, planned_action, plan_for, CacheLayout,
    InstallPlan, InstallStep, Installer, INSTALL_ACTIONS,
};
use crate::catalog::{Release, ReleaseLookup};
use crate::electron::{pick_electron_zip, Electron, ElectronOpts};
use crate::error::ElectronError;
use crate::resolver::{wanted, ResolvePhase, ResolveStep, Resolver, ResolverModel};
use crate::target::{arch_name, platform_name, TargetDescriptor};
use crate::version::{RangeModel, Version, VersionModel};

verus! {

/// What the acquisition asks for next, or how it ended.
#[derive(Debug)]
pub enum AcquireStep {
    /// Probe whether this path, a build's executable, exists, and answer
    /// with `on_probe`.
    Probe(String),
    /// Ask the catalog for the release tagged `release_tag(version)`, and
    /// answer with `on_release`.
    LookupRelease(Version),
    /// Ask the catalog for this page of tags, and answer with `on_page`.
    FetchPage(u32),
    /// Perform this install action, and answer with `on_action`.
    Act(InstallStep),
    Done(Electron),
    Failed(ElectronError),
}

/// What the acquisition waits for.
#[derive(Clone, Copy, Debug, PartialEq, Eq, Structural)]
pub enum AcquirePhase {
    /// The probe of the installed version's cache entry.
    ProbeInstalled,
    /// An answer for the resolver.
    Resolving,
    /// The probe of the resolved version's cache entry.
    ProbeResolved,
    /// The outcome of an install action.
    Installing,
    Finished,
}

/// The state of one acquisition.
pub struct Acquisition {
    phase: AcquirePhase,
    force: bool,
    target: TargetDescriptor,
    layout: CacheLayout,
    opts: Option<ElectronOpts>,
    installed: Option<Version>,
    resolver: Option<Resolver>,
    chosen: Option<(Version, String)>,
    installer: Option<Installer>,
    range: Ghost<RangeModel>,
    include_prerelease: Ghost<bool>,
}

/// Whether a release has an asset of this name.
pub open spec fn has_asset(rel: Release, name: Seq<char>) -> bool {
    exists|i: int| 0 <= i < rel.assets@.len() && (#[trigger] rel.assets@[i]).name@ == name
}

/// The handle for build `v` of `target` whose executable is at `exe`.
pub open spec fn handle_for(e: Electron, exe: Seq<char>, v: VersionModel, target: TargetDescriptor) -> bool {
    &&& e.exe_spec() == exe
    &&& e.version_spec() == v
    &&& e.os_spec() == platform_name(target.platform)
    &&& e.arch_spec() == arch_name(target.arch)
}

impl Acquisition {
    pub closed spec fn phase(&self) -> AcquirePhase {
        self.phase
    }

    /// The range of the acquisition.
    pub closed spec fn range(&self) -> RangeModel {
        self.range@
    }

    /// Whether prereleases may be chosen.
    pub closed spec fn include_prerelease(&self) -> bool {
        self.include_prerelease@
    }

    pub closed spec fn target(&self) -> TargetDescriptor {
        self.target
    }

    pub closed spec fn data_dir(&self) -> Seq<char> {
        self.layout.data_dir@
    }

    /// The version being acquired, once it is known.
    pub closed spec fn version(&self) -> Option<VersionModel> {
        match self.chosen {
            Some(c) => Some(c.0@),
            None => match self.installed {
                Some(v) if self.phase == AcquirePhase::ProbeInstalled => Some(v@),
                _ => None,
            },
        }
    }

    /// The resolver's state while the acquisition is resolving.
    pub closed spec fn resolver_model(&self) -> ResolverModel {
        match self.resolver {
            Some(r) => r@,
            None => arbitrary(),
        }
    }

    pub open spec fn resolver_phase(&self) -> ResolvePhase {
        self.resolver_model().phase
    }

    /// How many actions of the install under way have succeeded.
    pub closed spec fn install_stage(&self) -> nat {
        match self.installer {
            Some(i) => i.stage(),
            None => 0,
        }
    }

    pub closed spec fn wf(&self) -> bool {
        &&& self.phase == AcquirePhase::ProbeInstalled ==> (self.installed matches Some(v)
            && wanted(self.range@, self.include_prerelease@, v@)
            && (self.opts matches Some(o) && o@.range == self.range@
                && o@.include_prerelease == self.include_prerelease@)
            && self.chosen is None)
        &&& self.phase == AcquirePhase::Resolving ==> (self.resolver matches Some(r) && r.wf()
            && r@.phase != ResolvePhase::Finished && r@.range == self.range@
            && r@.include_prerelease == self.include_prerelease@ && self.chosen is None)
        &&& self.chosen matches Some(c) ==> wanted(self.range@, self.include_prerelease@, c.0@)
        &&& self.phase == AcquirePhase::ProbeResolved ==> self.chosen is Some
        &&& self.phase == AcquirePhase::Installing ==> (self.chosen matches Some(c)
            && (self.installer matches Some(i) && !i.finished()
                && i.plan() == plan_for(&self.layout, c.0@, self.target, c.1@)))
    }

    /// Starts an acquisition for `target`, caching under `layout`, given the
    /// version of the installed package if one was found.
    pub fn start(opts: ElectronOpts, target: TargetDescriptor, layout: CacheLayout, installed: Option<Version>) -> (r: (Acquisition, AcquireStep))
        ensures
            r.0.wf(),
            r.0.target() == target,
            r.0.data_dir() == layout.data_dir@,
            r.0.range() == opts@.range,
            r.0.include_prerelease() == opts@.include_prerelease,
            opts.cache_fast_path_spec(installed) ==> {
                &&& r.0.phase() == AcquirePhase::ProbeInstalled
                &&& r.0.version() == Some(installed.unwrap()@)
                &&& r.1 matches AcquireStep::Probe(p) && p@ == exe_path_text(layout.data_dir@, installed.unwrap()@, target)
            },
            !opts.cache_fast_path_spec(installed) ==> {
                &&& Self::resolving_step(r.0, r.1)
                &&& r.0.phase() == AcquirePhase::Resolving
                &&& Self::first_request(r.0, installed, r.1)
            },
    {
        let force = opts.is_forced();
        let ghost opts_range = opts@.range;
        let ghost opts_pre = opts@.include_prerelease;
        if opts.cache_fast_path(&installed) {
            let v = installed.unwrap();
            let dir = layout.exe_path(&v, target);
            let acq = Acquisition {
                phase: AcquirePhase::ProbeInstalled,
                force,
                target,
                layout,
                opts: Some(opts),
                installed: Some(v),
                resolver: None,
                chosen: None,
                installer: None,
                range: Ghost(opts_range),
                include_prerelease: Ghost(opts_pre),
            };
            (acq, AcquireStep::Probe(dir))
        } else {
            let (res, step) = opts.into_resolver(installed);
            let mut acq = Acquisition {
                phase: AcquirePhase::Resolving,
                force,
                target,
                layout,
                opts: None,
                installed: None,
                resolver: Some(res),
                chosen: None,
                installer: None,
                range: Ghost(opts_range),
                include_prerelease: Ghost(opts_pre),
            };
            let s = acq.take_resolve_step(step);
            (acq, s)
        }
    }

    /// What the acquisition waits for.
    pub fn current_phase(&self) -> (r: AcquirePhase)
        ensures
            r == self.phase(),
    {
        self.phase
    }

    /// Takes the result of a `Probe`. For the installed version, a hit is
    /// the handle and a miss starts the resolution. For a resolved version,
    /// the install starts when the entry is missing or a fresh download is
    /// forced; otherwise the cached build is the handle.
    pub fn on_probe(&mut self, exists: bool) -> (r: AcquireStep)
        requires
            old(self).wf(),
            old(self).phase() == AcquirePhase::ProbeInstalled || old(self).phase() == AcquirePhase::ProbeResolved,
        ensures
            final(self).target() == old(self).target(),
            final(self).data_dir() == old(self).data_dir(),
            old(self).phase() == AcquirePhase::ProbeInstalled && exists ==> {
                &&& r matches AcquireStep::Done(e) && handle_for(e,
                    exe_path_text(old(self).data_dir(), old(self).version().unwrap(), old(self).target()),
                    old(self).version().unwrap(), old(self).target())
                &&& final(self).phase() == AcquirePhase::Finished
            },
            old(self).phase() == AcquirePhase::ProbeInstalled && !exists ==> {
                &&& Self::resolving_step(*final(self), r)
                &&& final(self).phase() == AcquirePhase::Resolving
                &&& r matches AcquireStep::LookupRelease(w) && Some(w@) == old(self).version()
                &&& final(self).resolver_model().phase == ResolvePhase::FastLookup
                &&& final(self).resolver_model().pending == old(self).version()
                &&& final(self).resolver_model().range == old(self).range()
                &&& final(self).resolver_model().include_prerelease == old(self).include_prerelease()
            },
            r matches AcquireStep::Done(e) ==> wanted(old(self).range(), old(self).include_prerelease(), e.version_spec()),
            final(self).range() == old(self).range(),
            final(self).include_prerelease() == old(self).include_prerelease(),
            old(self).phase() == AcquirePhase::ProbeResolved && (old(self).forced() || !exists) ==> {
                &&& r matches AcquireStep::Act(s) && s@ == planned_action(final(self).plan(), 0)
                &&& final(self).phase() == AcquirePhase::Installing
                &&& final(self).version() == old(self).version()
                &&& final(self).wf()
            },
            old(self).phase() == AcquirePhase::ProbeResolved && !old(self).forced() && exists ==> {
                &&& r matches AcquireStep::Done(e) && handle_for(e,
                    exe_path_text(old(self).data_dir(), old(self).version().unwrap(), old(self).target()),
                    old(self).version().unwrap(), old(self).target())
                &&& final(self).phase() == AcquirePhase::Finished
            },
    {
        if self.phase == AcquirePhase::ProbeInstalled {
            let v = self.installed.take().unwrap();
            let opts = self.opts.take().unwrap();
            if exists {
                self.phase = AcquirePhase::Finished;
                let exe = self.layout.exe_path(&v, self.target);
                AcquireStep::Done(Electron::new(exe, v, self.target))
            } else {
                let (res, step) = opts.into_resolver(Some(v));
                self.resolver = Some(res);
                self.phase = AcquirePhase::Resolving;
                self.take_resolve_step(step)
            }
        } else {
            let (v, url) = self.chosen.take().unwrap();
            if CacheLayout::needs_install(self.force, exists) {
                let (ins, first) = Installer::new(&self.layout, &v, self.target, url.as_str());
                self.installer = Some(ins);
                self.chosen = Some((v, url));
                self.phase = AcquirePhase::Installing;
                AcquireStep::Act(first)
            } else {
                self.phase = AcquirePhase::Finished;
                let exe = self.layout.exe_path(&v, self.target);
                AcquireStep::Done(Electron::new(exe, v, self.target))
            }
        }
    }

    /// Whether a fresh download is forced.
    pub closed spec fn forced(&self) -> bool {
        self.force
    }

    /// The plan of the install under way.
    pub closed spec fn plan(&self) -> InstallPlan {
        match self.installer {
            Some(i) => i.plan(),
            None => arbitrary(),
        }
    }

    /// Takes the catalog's answer to a `LookupRelease`; see `Resolver::on_release`.
    pub fn on_release(&mut self, lookup: ReleaseLookup) -> (r: AcquireStep)
        requires
            old(self).wf(),
            old(self).phase() == AcquirePhase::Resolving,
            old(self).resolver_phase() == ResolvePhase::FastLookup || old(self).resolver_phase() == ResolvePhase::ScanLookup,
        ensures
            Self::resolving_step(*final(self), r),
            exists|step: ResolveStep| Resolver::release_answer(old(self).resolver_model(), lookup, final(self).resolver_model(), step)
                && #[trigger] Self::lifted(old(self).target(), old(self).data_dir(), *final(self), step, r),
            final(self).target() == old(self).target(),
            final(self).range() == old(self).range(),
            final(self).include_prerelease() == old(self).include_prerelease(),
            final(self).data_dir() == old(self).data_dir(),
    {
        let ghost before = *self;
        let mut res = self.resolver.take().unwrap();
        let ghost answered = lookup;
        let step = res.on_release(lookup);
        self.resolver = Some(res);
        let ghost s = step;
        let r = self.take_resolve_step(step);
        assert(Resolver::release_answer(before.resolver_model(), answered, self.resolver_model(), s));
        assert(Self::lifted(before.target(), before.data_dir(), *self, s, r));
        r
    }

    /// Takes a page of catalog tags; see `Resolver::on_page`.
    pub fn on_page(&mut self, tags: Vec<String>) -> (r: AcquireStep)
        requires
            old(self).wf(),
            old(self).phase() == AcquirePhase::Resolving,
            old(self).resolver_phase() == ResolvePhase::AwaitPage,
        ensures
            Self::resolving_step(*final(self), r),
            exists|step: ResolveStep| Resolver::page_answer(old(self).resolver_model(), tags@.map_values(|t: String| t@), final(self).resolver_model(), step)
                && #[trigger] Self::lifted(old(self).target(), old(self).data_dir(), *final(self), step, r),
            final(self).target() == old(self).target(),
            final(self).range() == old(self).range(),
            final(self).include_prerelease() == old(self).include_prerelease(),
            final(self).data_dir() == old(self).data_dir(),
    {
        let ghost before = *self;
        let mut res = self.resolver.take().unwrap();
        let ghost answered = tags@.map_values(|t: String| t@);
        let step = res.on_page(tags);
        self.resolver = Some(res);
        let ghost s = step;
        let r = self.take_resolve_step(step);
        assert(Resolver::page_answer(before.resolver_model(), answered, self.resolver_model(), s));
        assert(Self::lifted(before.target(), before.data_dir(), *self, s, r));
        r
    }

    /// Takes the outcome of an install action; see `Installer::on_done`. The
    /// completed install is the handle of the installed build.
    pub fn on_action(&mut self, outcome: Result<(), String>) -> (r: AcquireStep)
        requires
            old(self).wf(),
            old(self).phase() == AcquirePhase::Installing,
        ensures
            final(self).wf(),
            final(self).target() == old(self).target(),
            final(self).data_dir() == old(self).data_dir(),
            final(self).version() == old(self).version(),
            final(self).plan() == old(self).plan(),
            r matches AcquireStep::Done(e) ==> outcome is Ok && handle_for(e,
                exe_path_text(old(self).data_dir(), old(self).version().unwrap(), old(self).target()),
                old(self).version().unwrap(), old(self).target()),
            r matches AcquireStep::Act(s) ==> outcome is Ok && final(self).phase() == AcquirePhase::Installing,
            r matches AcquireStep::Done(e) ==> wanted(old(self).range(), old(self).include_prerelease(), e.version_spec()),
            final(self).range() == old(self).range(),
            final(self).include_prerelease() == old(self).include_prerelease(),
            outcome is Ok && old(self).install_stage() + 1 < INSTALL_ACTIONS ==> {
                &&& r matches AcquireStep::Act(s) && s@ == planned_action(old(self).plan(), old(self).install_stage() + 1 as int)
                &&& final(self).install_stage() == old(self).install_stage() + 1
            },
            outcome is Ok && old(self).install_stage() + 1 == INSTALL_ACTIONS ==> r is Done
                && final(self).phase() == AcquirePhase::Finished,
            outcome matches Err(msg) ==> r matches AcquireStep::Failed(e)
                && install_failure(old(self).plan(), old(self).install_stage(), msg, e)
                && final(self).phase() == AcquirePhase::Finished,
    {
        let mut ins = self.installer.take().unwrap();
        let step = ins.on_done(outcome);
        self.installer = Some(ins);
        match step {
            InstallStep::Done(exe) => {
                self.phase = AcquirePhase::Finished;
                let version = self.chosen.as_ref().unwrap().0.duplicate();
                AcquireStep::Done(Electron::new(exe, version, self.target))
            },
            InstallStep::Failed(e) => {
                self.phase = AcquirePhase::Finished;
                AcquireStep::Failed(e)
            },
            other => AcquireStep::Act(other),
        }
    }

    /// The first catalog request of a resolution: the release of the
    /// installed version when the resolution wants it, else the first page of
    /// tags.
    pub open spec fn first_request(a: Acquisition, installed: Option<Version>, s: AcquireStep) -> bool {
        &&& a.resolver_model().range == a.range()
        &&& a.resolver_model().include_prerelease == a.include_prerelease()
        &&& match installed {
            Some(v) if wanted(a.range(), a.include_prerelease(), v@) => {
                &&& s matches AcquireStep::LookupRelease(w) && w@ == v@
                &&& a.resolver_model().phase == ResolvePhase::FastLookup
                &&& a.resolver_model().pending == Some(v@)
            },
            _ => {
                &&& s matches AcquireStep::FetchPage(p) && p == 0
                &&& a.resolver_model().phase == ResolvePhase::AwaitPage
                &&& a.resolver_model().pending is None
            },
        }
    }

    /// After a resolver step: either still resolving and asking the catalog,
    /// or finished with a failure, or probing the cache entry of the resolved
    /// version.
    pub open spec fn resolving_step(a: Acquisition, s: AcquireStep) -> bool {
        &&& a.wf()
        &&& match s {
            AcquireStep::LookupRelease(_) | AcquireStep::FetchPage(_) => a.phase() == AcquirePhase::Resolving,
            AcquireStep::Failed(_) => a.phase() == AcquirePhase::Finished,
            AcquireStep::Probe(p) => {
                &&& a.phase() == AcquirePhase::ProbeResolved
                &&& a.version() matches Some(v) && p@ == exe_path_text(a.data_dir(), v, a.target())
            },
            _ => false,
        }
    }

    /// The acquisition's step for the resolver's step `s`: a request to the
    /// catalog or a failure is passed on; a resolved release must carry the
    /// build's asset, and then the build's cache entry is probed.
    pub open spec fn lifted(target: TargetDescriptor, data_dir: Seq<char>, new_: Acquisition, s: ResolveStep, r: AcquireStep) -> bool {
        match s {
            ResolveStep::LookupRelease(v) => r matches AcquireStep::LookupRelease(w) && w@ == v@,
            ResolveStep::FetchPage(p) => r matches AcquireStep::FetchPage(q) && q == p,
            ResolveStep::Failed(e) => r matches AcquireStep::Failed(f) && f == e,
            ResolveStep::Resolved(v, rel) => if has_asset(rel, asset_name_text(v@, target)) {
                &&& r matches AcquireStep::Probe(d) && d@ == exe_path_text(data_dir, v@, target)
                &&& new_.version() == Some(v@)
            } else {
                r matches AcquireStep::Failed(ElectronError::MissingElectronFiles { version: w, target: name })
                    && w@ == v@ && name@ == asset_name_text(v@, target)
            },
        }
    }

    /// Turns the resolver's step into the acquisition's. A resolved release
    /// must carry the build's asset; then the build's cache entry is probed.
    fn take_resolve_step(&mut self, step: ResolveStep) -> (r: AcquireStep)
        requires
            old(self).resolver matches Some(res) && res.wf(),
            step is Resolved || step is Failed ==> old(self).resolver.unwrap()@.phase == ResolvePhase::Finished,
            !(step is Resolved || step is Failed) ==> old(self).resolver.unwrap()@.phase != ResolvePhase::Finished,
            old(self).phase == AcquirePhase::Resolving,
            old(self).resolver.unwrap()@.range == old(self).range@,
            old(self).resolver.unwrap()@.include_prerelease == old(self).include_prerelease@,
            old(self).chosen is None,
            step matches ResolveStep::Resolved(v, _) ==> wanted(old(self).range@, old(self).include_prerelease@, v@),
        ensures
            Self::resolving_step(*final(self), r),
            final(self).range() == old(self).range(),
            final(self).include_prerelease() == old(self).include_prerelease(),
            final(self).target() == old(self).target(),
            final(self).data_dir() == old(self).data_dir(),
            final(self).resolver_model() == old(self).resolver_model(),
            Self::lifted(old(self).target(), old(self).data_dir(), *final(self), step, r),
    {
        match step {
            ResolveStep::LookupRelease(v) => AcquireStep::LookupRelease(v),
            ResolveStep::FetchPage(p) => AcquireStep::FetchPage(p),
            ResolveStep::Failed(e) => {
                self.phase = AcquirePhase::Finished;
                AcquireStep::Failed(e)
            },
            ResolveStep::Resolved(v, rel) => {
                match pick_electron_zip(&v, &rel, self.target) {
                    Ok(url) => {
                        let dir = self.layout.exe_path(&v, self.target);
                        self.chosen = Some((v, url));
                        self.phase = AcquirePhase::ProbeResolved;
                        AcquireStep::Probe(dir)
                    },
                    Err(e) => {
                        self.phase = AcquirePhase::Finished;
                        AcquireStep::Failed(e)
                    },
                }
            },
        }
    }
}

impl ElectronOpts {
    /// The fast path's condition; see `cache_fast_path`.
    pub open spec fn cache_fast_path_spec(&self, installed: Option<Version>) -> bool {
        installed matches Some(v) && !self@.force && wanted(self@.range, self@.include_prerelease, v@)
    }
}

} // verus!
