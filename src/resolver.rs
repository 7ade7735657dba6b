//! Choosing the release to acquire for a version range.
//!
//! A [`Resolver`] first tries the version of the installed package, if one
//! was found and the range wants it; otherwise it pages through the catalog's
//! tags, newest first, and asks for the release of each tag that the range
//! wants until one exists. The program around it fetches the pages and the
//! releases and hands each answer back.

use vstd::prelude::*;
use vstd::string::*;
use crate::catalog::{classify_api_error, is_rate_limited, Release, ReleaseLookup};
use crate::error::ElectronError;
use crate::version::{
    semver_parse, version_text, RangeModel, Version, VersionError, VersionModel, VersionRange,
};

verus! {

/// Whether the resolution wants version `v`: the range admits it, and it is
/// no prerelease unless prereleases were asked for.
pub open spec fn wanted(range: RangeModel, include_prerelease: bool, v: VersionModel) -> bool {
    range.admits(v) && (!v.is_prerelease() || include_prerelease)
}

/// The version that a catalog tag names: the tag without its one-character
/// prefix (`v13.1.0` names `13.1.0`).
pub open spec fn tag_version(tag: Seq<char>) -> Option<VersionModel> {
    if tag.len() == 0 {
        None
    } else {
        semver_parse(tag.drop_first())
    }
}

/// The result of scanning a page of tags.
pub enum Scan {
    /// No tag from the starting point on is wanted.
    Exhausted,
    /// The tag at this index does not name a version.
    Malformed(int),
    /// The tag at this index is the first one wanted; it names this version.
    Match(int, VersionModel),
}

/// Scanning `tags` from index `i`: the first tag that is malformed or wanted.
pub open spec fn scan_from(range: RangeModel, include_prerelease: bool, tags: Seq<Seq<char>>, i: int) -> Scan
    decreases tags.len() - i,
{
    if i < 0 || i >= tags.len() {
        Scan::Exhausted
    } else {
        match tag_version(tags[i]) {
            None => Scan::Malformed(i),
            Some(v) => if wanted(range, include_prerelease, v) {
                Scan::Match(i, v)
            } else {
                scan_from(range, include_prerelease, tags, i + 1)
            },
        }
    }
}

/// The tag under which the catalog publishes a version: `v` and its text.
pub open spec fn release_tag_text(v: VersionModel) -> Seq<char> {
    seq!['v'] + version_text(v)
}

/// The catalog tag of a version.
pub fn release_tag(v: &Version) -> (r: String)
    ensures
        r@ == release_tag_text(v@),
{
    proof { reveal_strlit("v"); }
    String::from_str("v").concat(v.render().as_str())
}

/// The version that a catalog tag names.
pub fn version_of_tag(tag: &str) -> (r: Result<Version, ElectronError>)
    ensures
        r is Ok <==> tag_version(tag@) is Some,
        r matches Ok(v) ==> tag_version(tag@) == Some(v@),
        r matches Err(e) ==> (e matches ElectronError::SemverError(VersionError::Invalid { input })
            && input@ == tag@),
{
    let n = tag.unicode_len();
    if n == 0 {
        return Err(ElectronError::SemverError(VersionError::Invalid { input: String::from_str(tag) }));
    }
    let rest = tag.substring_char(1, n);
    assert(rest@ =~= tag@.drop_first());
    match Version::parse(rest) {
        Ok(v) => Ok(v),
        Err(_) => Err(ElectronError::SemverError(VersionError::Invalid { input: String::from_str(tag) })),
    }
}

/// What the resolver is waiting for.
#[derive(Clone, Copy, Debug, PartialEq, Eq, Structural)]
pub enum ResolvePhase {
    /// The release of the installed package's version.
    FastLookup,
    /// A page of catalog tags.
    AwaitPage,
    /// The release of a tag found while scanning.
    ScanLookup,
    /// Nothing: the resolution is over.
    Finished,
}

/// What the resolver asks for next, or how it ended.
#[derive(Debug)]
pub enum ResolveStep {
    /// Ask the catalog for the release tagged `release_tag(version)`.
    LookupRelease(Version),
    /// Ask the catalog for this page of tags (100 to a page, newest first).
    FetchPage(u32),
    /// The selected version and its release.
    Resolved(Version, Release),
    Failed(ElectronError),
}

/// The state of one resolution.
pub struct Resolver {
    range: VersionRange,
    include_prerelease: bool,
    phase: ResolvePhase,
    page: u32,
    tags: Vec<String>,
    cursor: usize,
    pending: Option<Version>,
}

/// What a resolver's state denotes.
pub struct ResolverModel {
    pub range: RangeModel,
    pub include_prerelease: bool,
    pub phase: ResolvePhase,
    pub page: u32,
    pub tags: Seq<Seq<char>>,
    pub cursor: int,
    pub pending: Option<VersionModel>,
}

impl View for Resolver {
    type V = ResolverModel;

    closed spec fn view(&self) -> ResolverModel {
        ResolverModel {
            range: self.range@,
            include_prerelease: self.include_prerelease,
            phase: self.phase,
            page: self.page,
            tags: self.tags@.map_values(|t: String| t@),
            cursor: self.cursor as int,
            pending: match self.pending {
                Some(v) => Some(v@),
                None => None,
            },
        }
    }
}

impl Resolver {
    /// Whether the state is one that the resolver's steps reach.
    pub closed spec fn wf(&self) -> bool {
        &&& self.cursor <= self.tags@.len()
        &&& (self.phase == ResolvePhase::FastLookup || self.phase == ResolvePhase::ScanLookup)
            <==> self.pending is Some
        &&& self.pending matches Some(v) ==> wanted(self.range@, self.include_prerelease, v@)
    }

    /// What a scan from the current cursor leads to: the next page, the end
    /// of the catalog, a malformed tag, or a release to ask for.
    pub open spec fn scan_result(old_: ResolverModel, new_: ResolverModel, r: ResolveStep) -> bool {
        &&& new_.range == old_.range
        &&& new_.include_prerelease == old_.include_prerelease
        &&& match scan_from(old_.range, old_.include_prerelease, old_.tags, old_.cursor) {
            Scan::Exhausted => if old_.page < u32::MAX {
                &&& r matches ResolveStep::FetchPage(p) && p == old_.page + 1
                &&& new_.phase == ResolvePhase::AwaitPage
                &&& new_.page == old_.page + 1
            } else {
                &&& r matches ResolveStep::Failed(ElectronError::MatchingVersionNotFound(t))
                &&& t@ == old_.range.text()
                &&& new_.phase == ResolvePhase::Finished
            },
            Scan::Malformed(i) => {
                &&& r matches ResolveStep::Failed(ElectronError::SemverError(VersionError::Invalid { input }))
                &&& input@ == old_.tags[i]
                &&& new_.phase == ResolvePhase::Finished
            },
            Scan::Match(i, v) => {
                &&& r matches ResolveStep::LookupRelease(w) && w@ == v
                &&& new_.phase == ResolvePhase::ScanLookup
                &&& new_.pending == Some(v)
                &&& new_.tags == old_.tags
                &&& new_.page == old_.page
                &&& new_.cursor == i + 1
            },
        }
    }

    /// Starts a resolution. With an installed version that the resolution
    /// wants, its release is asked for first and no page of tags is fetched
    /// unless that fails; otherwise the scan starts at page 0.
    pub fn start(range: VersionRange, include_prerelease: bool, installed: Option<Version>) -> (r: (Resolver, ResolveStep))
        ensures
            r.0.wf(),
            r.0@.range == range@,
            r.0@.include_prerelease == include_prerelease,
            match installed {
                Some(v) if wanted(range@, include_prerelease, v@) => {
                    &&& r.1 matches ResolveStep::LookupRelease(w) && w@ == v@
                    &&& r.0@.phase == ResolvePhase::FastLookup
                    &&& r.0@.pending == Some(v@)
                },
                _ => {
                    &&& r.1 matches ResolveStep::FetchPage(p) && p == 0
                    &&& r.0@.phase == ResolvePhase::AwaitPage
                    &&& r.0@.page == 0
                    &&& r.0@.pending is None
                },
            },
    {
        let mut res = Resolver {
            range,
            include_prerelease,
            phase: ResolvePhase::AwaitPage,
            page: 0,
            tags: Vec::new(),
            cursor: 0,
            pending: None,
        };
        match installed {
            Some(v) => {
                if res.range.satisfies(&v) && (!v.is_prerelease() || include_prerelease) {
                    res.phase = ResolvePhase::FastLookup;
                    res.pending = Some(v.duplicate());
                    return (res, ResolveStep::LookupRelease(v));
                }
                (res, ResolveStep::FetchPage(0))
            },
            None => (res, ResolveStep::FetchPage(0)),
        }
    }

    /// What the resolver waits for.
    pub fn phase(&self) -> (r: ResolvePhase)
        ensures
            r == self@.phase,
    {
        self.phase
    }

    /// The answer to a `LookupRelease`: a release that exists ends the
    /// resolution with it; a rate limit ends it with that error; any other
    /// failure moves on, from the installed version to the first page of
    /// tags, or from a scanned tag to the tags after it.
    pub open spec fn release_answer(old_: ResolverModel, lookup: ReleaseLookup, new_: ResolverModel, r: ResolveStep) -> bool {
        &&& new_.range == old_.range
        &&& new_.include_prerelease == old_.include_prerelease
        &&& match lookup {
            ReleaseLookup::Found(rel) => {
                &&& r matches ResolveStep::Resolved(v, got) && Some(v@) == old_.pending && got == rel
                    && wanted(old_.range, old_.include_prerelease, v@)
                &&& new_.phase == ResolvePhase::Finished
            },
            ReleaseLookup::Failed { api_message, description } => if is_rate_limited(api_message) {
                &&& r matches ResolveStep::Failed(ElectronError::GitHubApiLimit(m)) && api_message == Some(m)
                &&& new_.phase == ResolvePhase::Finished
            } else if old_.phase == ResolvePhase::FastLookup {
                &&& r matches ResolveStep::FetchPage(p) && p == 0
                &&& new_.phase == ResolvePhase::AwaitPage
                &&& new_.page == 0
            } else {
                Self::scan_result(old_, new_, r)
            },
        }
    }

    /// The answer to a page of tags: an empty page ends the resolution, as
    /// nothing matched; otherwise the page is scanned from its start.
    pub open spec fn page_answer(old_: ResolverModel, tags: Seq<Seq<char>>, new_: ResolverModel, r: ResolveStep) -> bool {
        &&& new_.range == old_.range
        &&& new_.include_prerelease == old_.include_prerelease
        &&& tags.len() == 0 ==> {
            &&& r matches ResolveStep::Failed(ElectronError::MatchingVersionNotFound(t))
            &&& t@ == old_.range.text()
            &&& new_.phase == ResolvePhase::Finished
        }
        &&& tags.len() > 0 ==> Self::scan_result(ResolverModel { tags, cursor: 0, ..old_ }, new_, r)
    }

    /// Takes the answer to a `LookupRelease`; see `release_answer`.
    pub fn on_release(&mut self, lookup: ReleaseLookup) -> (r: ResolveStep)
        requires
            old(self).wf(),
            old(self)@.phase == ResolvePhase::FastLookup || old(self)@.phase == ResolvePhase::ScanLookup,
        ensures
            final(self).wf(),
            Self::release_answer(old(self)@, lookup, final(self)@, r),
    {
        match lookup {
            ReleaseLookup::Found(rel) => {
                let v = self.pending.take().unwrap();
                self.phase = ResolvePhase::Finished;
                ResolveStep::Resolved(v, rel)
            },
            ReleaseLookup::Failed { api_message, description } => {
                let err = classify_api_error(api_message, description);
                if let ElectronError::GitHubApiLimit(_) = err {
                    self.phase = ResolvePhase::Finished;
                    self.pending = None;
                    return ResolveStep::Failed(err);
                }
                if self.phase == ResolvePhase::FastLookup {
                    self.phase = ResolvePhase::AwaitPage;
                    self.pending = None;
                    self.page = 0;
                    self.tags = Vec::new();
                    self.cursor = 0;
                    ResolveStep::FetchPage(0)
                } else {
                    self.continue_scan()
                }
            },
        }
    }

    /// Takes a page of tags, newest first; see `page_answer`.
    pub fn on_page(&mut self, tags: Vec<String>) -> (r: ResolveStep)
        requires
            old(self).wf(),
            old(self)@.phase == ResolvePhase::AwaitPage,
        ensures
            final(self).wf(),
            Self::page_answer(old(self)@, tags@.map_values(|t: String| t@), final(self)@, r),
    {
        if tags.len() == 0 {
            self.phase = ResolvePhase::Finished;
            return ResolveStep::Failed(ElectronError::MatchingVersionNotFound(self.range.text()));
        }
        self.tags = tags;
        self.cursor = 0;
        self.continue_scan()
    }

    fn continue_scan(&mut self) -> (r: ResolveStep)
        requires
            old(self).wf(),
        ensures
            final(self).wf(),
            Self::scan_result(old(self)@, final(self)@, r),
    {
        let n = self.tags.len();
        let mut i = self.cursor;
        let ghost tags = self@.tags;
        while i < n
            invariant
                *self == *old(self),
                self.wf(),
                tags == self@.tags,
                n == tags.len(),
                self.cursor <= i <= n,
                scan_from(self@.range, self.include_prerelease, tags, self.cursor as int)
                    == scan_from(self@.range, self.include_prerelease, tags, i as int),
            decreases n - i,
        {
            assert(tags[i as int] == self.tags@[i as int]@);
            match version_of_tag(self.tags[i].as_str()) {
                Err(e) => {
                    self.phase = ResolvePhase::Finished;
                    self.pending = None;
                    return ResolveStep::Failed(e);
                },
                Ok(v) => {
                    if self.range.satisfies(&v) && (!v.is_prerelease() || self.include_prerelease) {
                        self.pending = Some(v.duplicate());
                        self.phase = ResolvePhase::ScanLookup;
                        self.cursor = i + 1;
                        return ResolveStep::LookupRelease(v);
                    }
                },
            }
            i = i + 1;
        }
        self.tags = Vec::new();
        self.cursor = 0;
        self.pending = None;
        if self.page < u32::MAX {
            self.page = self.page + 1;
            self.phase = ResolvePhase::AwaitPage;
            ResolveStep::FetchPage(self.page)
        } else {
            self.phase = ResolvePhase::Finished;
            ResolveStep::Failed(ElectronError::MatchingVersionNotFound(self.range.text()))
        }
    }
}

/// On the fast path, a release found for the installed version resolves the
/// lookup with that version: no page of tags is asked for.
pub proof fn lemma_fast_path_needs_no_pages(old_: ResolverModel, rel: Release, new_: ResolverModel, r: ResolveStep)
    requires
        old_.phase == ResolvePhase::FastLookup,
        Resolver::release_answer(old_, ReleaseLookup::Found(rel), new_, r),
    ensures
        !(r is FetchPage),
        r matches ResolveStep::Resolved(v, got) && Some(v@) == old_.pending && got == rel,
        new_.phase == ResolvePhase::Finished,
{
}

proof fn lemma_run_keeps_range(pages: Seq<Seq<Seq<char>>>, states: Seq<ResolverModel>, steps: Seq<ResolveStep>, j: int)
    requires
        states.len() == pages.len() + 1,
        steps.len() == pages.len(),
        forall|m: int| #![trigger pages[m]] 0 <= m < pages.len()
            ==> Resolver::page_answer(states[m], pages[m], states[m + 1], steps[m]),
        0 <= j <= pages.len(),
    ensures
        states[j].range == states[0].range,
        states[j].include_prerelease == states[0].include_prerelease,
    decreases j,
{
    if j > 0 {
        lemma_run_keeps_range(pages, states, steps, j - 1);
        assert(Resolver::page_answer(states[j - 1], pages[j - 1], states[j], steps[j - 1]));
    }
}

/// A scan across pages selects the first wanted tag in catalog order. Take
/// the pages of tags handed to a resolution one after another, with the
/// resolver's states and steps: while the scan went on to the next page,
/// every tag of the pages before the last one named a version the resolution
/// does not want. On the last page, a release asked for is of its first tag
/// wanted, after only unwanted tags; and the scan ends without a match only
/// at an empty page, that is, when no tag of the catalog is wanted.
pub proof fn lemma_scan_across_pages(
    pages: Seq<Seq<Seq<char>>>,
    states: Seq<ResolverModel>,
    steps: Seq<ResolveStep>,
)
    requires
        pages.len() >= 1,
        states.len() == pages.len() + 1,
        steps.len() == pages.len(),
        forall|m: int| #![trigger pages[m]] 0 <= m < pages.len()
            ==> Resolver::page_answer(states[m], pages[m], states[m + 1], steps[m]),
        forall|m: int| 0 <= m < pages.len() - 1 ==> #[trigger] steps[m] is FetchPage,
    ensures
        forall|m: int, k: int| 0 <= m < pages.len() - 1 && 0 <= k < pages[m].len()
            ==> (tag_version(#[trigger] pages[m][k]) matches Some(w)
                && !wanted(states[0].range, states[0].include_prerelease, w)),
        ({
            let last = pages[pages.len() - 1];
            let range = states[0].range;
            let pre = states[0].include_prerelease;
            &&& steps[pages.len() - 1] matches ResolveStep::LookupRelease(w) ==> exists|k: int|
                0 <= k < last.len() && tag_version(#[trigger] last[k]) == Some(w@) && wanted(range, pre, w@)
                && forall|q: int| 0 <= q < k ==> (tag_version(#[trigger] last[q]) matches Some(u) && !wanted(range, pre, u))
            &&& steps[pages.len() - 1] matches ResolveStep::Failed(ElectronError::MatchingVersionNotFound(_))
                ==> last.len() == 0 || forall|k: int| 0 <= k < last.len()
                    ==> (tag_version(#[trigger] last[k]) matches Some(u) && !wanted(range, pre, u))
        }),
{
    assert forall|m: int, k: int| 0 <= m < pages.len() - 1 && 0 <= k < pages[m].len()
        implies (tag_version(#[trigger] pages[m][k]) matches Some(w)
            && !wanted(states[0].range, states[0].include_prerelease, w)) by {
        lemma_run_keeps_range(pages, states, steps, m);
        assert(Resolver::page_answer(states[m], pages[m], states[m + 1], steps[m]));
        assert(steps[m] is FetchPage);
        lemma_scan_selects_first_wanted(states[m].range, states[m].include_prerelease, pages[m], 0);
    }
    let j = pages.len() - 1;
    lemma_run_keeps_range(pages, states, steps, j);
    assert(Resolver::page_answer(states[j], pages[j], states[j + 1], steps[j]));
    lemma_scan_selects_first_wanted(states[j].range, states[j].include_prerelease, pages[j], 0);
    match steps[j] {
        ResolveStep::LookupRelease(w) => {
            match scan_from(states[j].range, states[j].include_prerelease, pages[j], 0) {
                Scan::Match(k, v) => {
                    assert(tag_version(pages[j][k]) == Some(w@));
                },
                _ => {},
            }
        },
        _ => {},
    }
}

/// The scan selects the first tag that the resolution wants, after only
/// tags that name versions it does not want; when no tag is wanted, the scan
/// is exhausted. (Which version that is depends on the catalog's order alone:
/// with tags newest first, it is the newest one wanted.)
pub proof fn lemma_scan_selects_first_wanted(
    range: RangeModel,
    include_prerelease: bool,
    tags: Seq<Seq<char>>,
    i: int,
)
    requires
        0 <= i,
    ensures
        scan_from(range, include_prerelease, tags, i) matches Scan::Match(k, v) ==> {
            &&& i <= k < tags.len()
            &&& tag_version(tags[k]) == Some(v)
            &&& wanted(range, include_prerelease, v)
            &&& forall|j: int| i <= j < k ==> (tag_version(#[trigger] tags[j]) matches Some(w)
                && !wanted(range, include_prerelease, w))
        },
        scan_from(range, include_prerelease, tags, i) matches Scan::Malformed(k) ==> {
            &&& i <= k < tags.len()
            &&& tag_version(tags[k]) is None
            &&& forall|j: int| i <= j < k ==> (tag_version(#[trigger] tags[j]) matches Some(w)
                && !wanted(range, include_prerelease, w))
        },
        scan_from(range, include_prerelease, tags, i) is Exhausted ==> forall|j: int| i <= j < tags.len()
            ==> (tag_version(#[trigger] tags[j]) matches Some(w) && !wanted(range, include_prerelease, w)),
    decreases tags.len() - i,
{
    if i < tags.len() {
        lemma_scan_selects_first_wanted(range, include_prerelease, tags, i + 1);
    }
}

} // verus!
