//! Acquisition of an Electron build: the options, the choices made along
//! the way, and the handle that results.

use vstd::prelude::*;
use vstd::string::*;
use crate::cache::{asset_name, asset_name_text};
use crate::catalog::Release;
use crate::error::{json_fault, ElectronError};
use crate::resolver::{wanted, ResolveStep, Resolver};
use crate::target::{arch_name, platform_name, TargetDescriptor};
use crate::text::same_text;
use crate::version::{RangeModel, Version, VersionModel, VersionRange};

verus! {

/// A usable Electron build: its executable, version and target.
#[derive(Debug)]
pub struct Electron {
    exe: String,
    version: Version,
    os: String,
    arch: String,
}

impl Electron {
    /// The handle of build `version` for `target`, whose executable is `exe`.
    pub fn new(exe: String, version: Version, target: TargetDescriptor) -> (r: Electron)
        ensures
            r.exe_spec() == exe@,
            r.version_spec() == version@,
            r.os_spec() == platform_name(target.platform),
            r.arch_spec() == arch_name(target.arch),
    {
        Electron {
            exe,
            version,
            os: String::from_str(target.platform.name()),
            arch: String::from_str(target.arch.name()),
        }
    }

    /// The same build, with its executable at `exe`: the handle of a copy
    /// of the build.
    pub fn with_exe(&self, exe: String) -> (r: Electron)
        ensures
            r.exe_spec() == exe@,
            r.version_spec() == self.version_spec(),
            r.os_spec() == self.os_spec(),
            r.arch_spec() == self.arch_spec(),
    {
        Electron { exe, version: self.version.duplicate(), os: self.os.clone(), arch: self.arch.clone() }
    }

    pub closed spec fn exe_spec(&self) -> Seq<char> {
        self.exe@
    }

    pub closed spec fn version_spec(&self) -> VersionModel {
        self.version@
    }

    pub closed spec fn os_spec(&self) -> Seq<char> {
        self.os@
    }

    pub closed spec fn arch_spec(&self) -> Seq<char> {
        self.arch@
    }

    pub fn exe(&self) -> (r: &str)
        ensures
            r@ == self.exe_spec(),
    {
        self.exe.as_str()
    }

    pub fn version(&self) -> (r: &Version)
        ensures
            r@ == self.version_spec(),
    {
        &self.version
    }

    pub fn os(&self) -> (r: &str)
        ensures
            r@ == self.os_spec(),
    {
        self.os.as_str()
    }

    pub fn arch(&self) -> (r: &str)
        ensures
            r@ == self.arch_spec(),
    {
        self.arch.as_str()
    }
}

/// What is asked of an acquisition: a range (the wildcard when none is
/// given), whether to download afresh, whether prereleases may be chosen,
/// and a token for the release catalog.
pub struct ElectronOpts {
    force: Option<bool>,
    range: Option<VersionRange>,
    include_prerelease: Option<bool>,
    github_token: Option<String>,
}

/// What acquisition options denote.
pub struct ElectronOptsModel {
    pub force: bool,
    pub range: RangeModel,
    pub include_prerelease: bool,
    pub github_token: Option<Seq<char>>,
}

/// The range of the wildcard.
pub open spec fn any_range() -> RangeModel {
    RangeModel { any: true, expr: seq!['*'] }
}

impl View for ElectronOpts {
    type V = ElectronOptsModel;

    closed spec fn view(&self) -> ElectronOptsModel {
        ElectronOptsModel {
            force: self.force == Some(true),
            range: match self.range {
                Some(r) => r@,
                None => any_range(),
            },
            include_prerelease: self.include_prerelease == Some(true),
            github_token: match self.github_token {
                Some(t) => Some(t@),
                None => None,
            },
        }
    }
}

impl ElectronOpts {
    /// No force, the wildcard range, no prereleases, no token.
    pub fn new() -> (r: ElectronOpts)
        ensures
            r@ == (ElectronOptsModel { force: false, range: any_range(), include_prerelease: false, github_token: None }),
    {
        ElectronOpts { force: None, range: None, include_prerelease: None, github_token: None }
    }

    pub fn force(self, force: bool) -> (r: ElectronOpts)
        ensures
            r@ == (ElectronOptsModel { force, ..self@ }),
    {
        ElectronOpts { force: Some(force), ..self }
    }

    pub fn range(self, range: VersionRange) -> (r: ElectronOpts)
        ensures
            r@ == (ElectronOptsModel { range: range@, ..self@ }),
    {
        ElectronOpts { range: Some(range), ..self }
    }

    pub fn include_prerelease(self, include_prerelease: bool) -> (r: ElectronOpts)
        ensures
            r@ == (ElectronOptsModel { include_prerelease, ..self@ }),
    {
        ElectronOpts { include_prerelease: Some(include_prerelease), ..self }
    }

    pub fn github_token(self, github_token: String) -> (r: ElectronOpts)
        ensures
            r@ == (ElectronOptsModel { github_token: Some(github_token@), ..self@ }),
    {
        ElectronOpts { github_token: Some(github_token), ..self }
    }

    /// Whether a fresh download is forced.
    pub fn is_forced(&self) -> (r: bool)
        ensures
            r == self@.force,
    {
        match self.force {
            Some(f) => f,
            None => false,
        }
    }

    /// The catalog token, if any.
    pub fn token(&self) -> (r: Option<&String>)
        ensures
            match r {
                Some(t) => self@.github_token == Some(t@),
                None => self@.github_token is None,
            },
    {
        match &self.github_token {
            Some(t) => Some(t),
            None => None,
        }
    }

    /// Whether prereleases may be chosen.
    pub fn prereleases_included(&self) -> (r: bool)
        ensures
            r == self@.include_prerelease,
    {
        match self.include_prerelease {
            Some(p) => p,
            None => false,
        }
    }

    /// Whether the installed version may be used straight from the cache,
    /// before the catalog is asked anything: a fresh download is not forced
    /// and the resolution wants it (the range admits it, and it is no
    /// prerelease unless prereleases were asked for).
    pub fn cache_fast_path(&self, installed: &Option<Version>) -> (r: bool)
        ensures
            r == (installed matches Some(v) && !self@.force
                && wanted(self@.range, self@.include_prerelease, v@)),
    {
        match installed {
            Some(v) => {
                if self.is_forced() || (v.is_prerelease() && !self.prereleases_included()) {
                    false
                } else {
                    match &self.range {
                        Some(range) => range.satisfies(v),
                        None => VersionRange::any().satisfies(v),
                    }
                }
            },
            None => false,
        }
    }

    /// Starts the resolution of the options' range; see `Resolver::start`.
    pub fn into_resolver(self, installed: Option<Version>) -> (r: (Resolver, ResolveStep))
        ensures
            r.0.wf(),
            r.0@.range == self@.range,
            r.0@.include_prerelease == self@.include_prerelease,
            match installed {
                Some(v) if wanted(self@.range, self@.include_prerelease, v@) => {
                    &&& r.1 matches ResolveStep::LookupRelease(w) && w@ == v@
                    &&& r.0@.phase == crate::resolver::ResolvePhase::FastLookup
                    &&& r.0@.pending == Some(v@)
                },
                _ => {
                    &&& r.1 matches ResolveStep::FetchPage(p) && p == 0
                    &&& r.0@.phase == crate::resolver::ResolvePhase::AwaitPage
                    &&& r.0@.pending is None
                },
            },
    {
        let pre = match self.include_prerelease {
            Some(p) => p,
            None => false,
        };
        let range = match self.range {
            Some(r) => r,
            None => VersionRange::any(),
        };
        Resolver::start(range, pre, installed)
    }
}

/// The address of the asset that holds build `version` for `target`: the
/// first asset of the release named `electron-v{version}-{platform}-{arch}.zip`.
pub fn pick_electron_zip(version: &Version, release: &Release, target: TargetDescriptor) -> (r: Result<String, ElectronError>)
    ensures
        r matches Ok(url) ==> exists|i: int| 0 <= i < release.assets@.len()
            && (#[trigger] release.assets@[i]).name@ == asset_name_text(version@, target)
            && url@ == release.assets@[i].url@
            && forall|j: int| 0 <= j < i ==> (#[trigger] release.assets@[j]).name@ != asset_name_text(version@, target),
        r is Err <==> forall|i: int| 0 <= i < release.assets@.len()
            ==> (#[trigger] release.assets@[i]).name@ != asset_name_text(version@, target),
        r matches Err(e) ==> (e matches ElectronError::MissingElectronFiles { version: v, target: name }
            && v@ == version@ && name@ == asset_name_text(version@, target)),
{
    let name = asset_name(version, target);
    let mut i: usize = 0;
    while i < release.assets.len()
        invariant
            name@ == asset_name_text(version@, target),
            i <= release.assets@.len(),
            forall|j: int| 0 <= j < i ==> (#[trigger] release.assets@[j]).name@ != name@,
        decreases release.assets@.len() - i,
    {
        if same_text(release.assets[i].name.as_str(), name.as_str()) {
            return Ok(release.assets[i].url.clone());
        }
        i = i + 1;
    }
    Err(ElectronError::MissingElectronFiles { version: version.duplicate(), target: name })
}

/// The version of the tool's own package manifest, if the manifest at `url`
/// with text `json`, name `name` and version `version` is it: the manifest
/// named `collider`. The version must be a semantic version whatever the
/// name; when it is not, the manifest is malformed JSON for this purpose and
/// the error shows the fault at the version value, which a JSON parser
/// places at `line` and `column`.
pub fn manifest_version(
    url: String,
    json: &str,
    name: &str,
    version: &str,
    line: usize,
    column: usize,
) -> (r: Result<Option<Version>, ElectronError>)
    ensures
        r matches Ok(Some(v)) ==> name@ == "collider"@ && crate::version::semver_parse(version@) == Some(v@),
        r matches Ok(None) ==> name@ != "collider"@ && crate::version::semver_parse(version@) is Some,
        r is Err <==> crate::version::semver_parse(version@) is None,
        r matches Err(e) ==> json_fault(line as int, column as int, url@, json@, e),
{
    proof { reveal_strlit("collider"); }
    match Version::parse(version) {
        Ok(v) => if same_text(name, "collider") {
            Ok(Some(v))
        } else {
            Ok(None)
        },
        Err(_) => Err(ElectronError::from_json_err(line, column, url, json)),
    }
}

} // verus!
