//! Binary search over an ordered list of candidate versions for the point
//! where a behavior changes.
//!
//! The search keeps a bracket `[min_rev, max_rev]` of indices and a pivot to
//! test. A pass moves the lower end up to the pivot, a failure moves the upper
//! end down to it, and the next pivot is the middle of the new bracket. When
//! the bracket is one step wide, the pivot is tested one last time.

use vstd::prelude::*;
use vstd::string::*;
use core::cmp::Ordering;
use crate::electron::ElectronOpts;
use crate::text::same_text;
use crate::version::{precedence, semver_parse, version_text, Version, VersionError, VersionModel, VersionRange};

verus! {

/// The state of a bisection over `n` candidates.
pub struct BisectModel {
    pub n: nat,
    pub min_rev: int,
    pub max_rev: int,
    pub pivot: int,
    /// The pending test is the last one.
    pub last: bool,
    pub converged: bool,
}

pub open spec fn bisect_start(n: nat) -> BisectModel {
    BisectModel {
        n,
        min_rev: 0,
        max_rev: n - 1,
        pivot: (n - 1) / 2,
        last: n - 1 <= 1,
        converged: false,
    }
}

/// The state after the pivot's test passed or failed.
pub open spec fn bisect_step(s: BisectModel, passed: bool) -> BisectModel {
    if passed {
        let up = s.pivot + (s.max_rev - s.pivot) / 2;
        if s.last || up == s.max_rev || up == s.pivot {
            BisectModel { min_rev: s.pivot, converged: true, ..s }
        } else {
            BisectModel { min_rev: s.pivot, pivot: up, last: s.max_rev - s.pivot <= 1, ..s }
        }
    } else {
        let down = s.min_rev + (s.pivot - s.min_rev) / 2;
        if s.last || down == s.min_rev || down == s.pivot {
            BisectModel { max_rev: s.pivot, converged: true, ..s }
        } else {
            BisectModel { max_rev: s.pivot, pivot: down, last: s.pivot - s.min_rev <= 1, ..s }
        }
    }
}

/// The states that a bisection goes through.
pub open spec fn bisect_wf(s: BisectModel) -> bool {
    &&& 0 <= s.min_rev <= s.max_rev < s.n
    &&& !s.converged ==> {
        &&& s.pivot == s.min_rev + (s.max_rev - s.min_rev) / 2
        &&& s.last == (s.max_rev - s.min_rev <= 1)
    }
}

/// A search whose pending test is the one for the pivot.
pub struct Bisection {
    n: usize,
    min_rev: usize,
    max_rev: usize,
    pivot: usize,
    last: bool,
    converged: bool,
}

impl View for Bisection {
    type V = BisectModel;

    closed spec fn view(&self) -> BisectModel {
        BisectModel {
            n: self.n as nat,
            min_rev: self.min_rev as int,
            max_rev: self.max_rev as int,
            pivot: self.pivot as int,
            last: self.last,
            converged: self.converged,
        }
    }
}

impl Bisection {
    /// A search over `n` candidates, at least one.
    pub fn new(n: usize) -> (r: Bisection)
        requires
            n >= 1,
        ensures
            r@ == bisect_start(n as nat),
            bisect_wf(r@),
    {
        Bisection { n, min_rev: 0, max_rev: n - 1, pivot: (n - 1) / 2, last: n - 1 <= 1, converged: false }
    }

    /// The index to test next.
    pub fn pivot(&self) -> (r: usize)
        ensures
            r == self@.pivot,
    {
        self.pivot
    }

    pub fn is_converged(&self) -> (r: bool)
        ensures
            r == self@.converged,
    {
        self.converged
    }

    /// The bracket: the lower and the upper index.
    pub fn bounds(&self) -> (r: (usize, usize))
        ensures
            r.0 == self@.min_rev,
            r.1 == self@.max_rev,
    {
        (self.min_rev, self.max_rev)
    }

    /// Takes the outcome of testing the pivot.
    pub fn record(&mut self, passed: bool)
        requires
            bisect_wf(old(self)@),
            !old(self)@.converged,
        ensures
            final(self)@ == bisect_step(old(self)@, passed),
            bisect_wf(final(self)@),
    {
        if passed {
            let up = self.pivot + (self.max_rev - self.pivot) / 2;
            let was_last = self.last;
            self.min_rev = self.pivot;
            if was_last || up == self.max_rev || up == self.pivot {
                self.converged = true;
            } else {
                self.pivot = up;
                self.last = self.max_rev - self.min_rev <= 1;
            }
        } else {
            let down = self.min_rev + (self.pivot - self.min_rev) / 2;
            let was_last = self.last;
            self.max_rev = self.pivot;
            if was_last || down == self.min_rev || down == self.pivot {
                self.converged = true;
            } else {
                self.pivot = down;
                self.last = self.max_rev - self.min_rev <= 1;
            }
        }
    }
}

pub open spec fn pow2(k: nat) -> nat
    decreases k,
{
    if k == 0 { 1 } else { 2 * pow2((k - 1) as nat) }
}

/// How far a search is from its end.
pub open spec fn bisect_measure(s: BisectModel) -> int {
    if s.converged { 0 } else if s.last { 1 } else { s.max_rev - s.min_rev + 2 }
}

/// The search run to its end, each test's outcome given by `oracle` on the
/// tested index: the final state and the number of tests made.
pub open spec fn bisect_run(s: BisectModel, oracle: spec_fn(int) -> bool) -> (BisectModel, nat)
    decreases bisect_measure(s),
{
    if !bisect_wf(s) || s.converged {
        (s, 0)
    } else {
        let next = bisect_step(s, oracle(s.pivot));
        if bisect_measure(next) < bisect_measure(s) && bisect_measure(next) >= 0 {
            let (f, k) = bisect_run(next, oracle);
            (f, k + 1)
        } else {
            (next, 1)
        }
    }
}

/// Whether candidate `i` passes under a behavior that changes at `boundary`.
pub open spec fn passes(i: int, boundary: int) -> bool {
    i < boundary
}

proof fn lemma_step_shrinks(s: BisectModel, passed: bool)
    requires
        bisect_wf(s),
        !s.converged,
    ensures
        bisect_wf(bisect_step(s, passed)),
        0 <= bisect_measure(bisect_step(s, passed)) < bisect_measure(s),
        2 * (bisect_step(s, passed).max_rev - bisect_step(s, passed).min_rev - 1)
            <= s.max_rev - s.min_rev - 1 || s.last,
        bisect_step(s, passed).converged ==> bisect_step(s, passed).max_rev - bisect_step(s, passed).min_rev <= 1,
        !bisect_step(s, passed).converged ==> bisect_step(s, passed).max_rev - bisect_step(s, passed).min_rev >= 2
            && !s.last,
        passed ==> bisect_step(s, passed).min_rev == s.pivot && bisect_step(s, passed).max_rev == s.max_rev,
        !passed ==> bisect_step(s, passed).max_rev == s.pivot && bisect_step(s, passed).min_rev == s.min_rev,
{
}

proof fn lemma_run(s: BisectModel, oracle: spec_fn(int) -> bool, t: nat)
    requires
        bisect_wf(s),
        !s.converged,
        pow2(t) * (s.max_rev - s.min_rev - 1) < s.n - 1,
        t == 0 || s.max_rev - s.min_rev >= 2,
    ensures
        ({
            let (f, k) = bisect_run(s, oracle);
            &&& f.converged
            &&& bisect_wf(f)
            &&& f.n == s.n
            &&& f.max_rev - f.min_rev <= 1
            &&& k >= 1
            &&& t + k == 1 || pow2((t + k - 1) as nat) < s.n - 1
        }),
    decreases bisect_measure(s),
{
    let next = bisect_step(s, oracle(s.pivot));
    lemma_step_shrinks(s, oracle(s.pivot));
    let w = s.max_rev - s.min_rev;
    let w2 = next.max_rev - next.min_rev;
    assert(pow2(t + 1) == 2 * pow2(t));
    assert(bisect_run(s, oracle) == (if next.converged { (next, 1nat) } else {
        (bisect_run(next, oracle).0, bisect_run(next, oracle).1 + 1)
    }));
    if t > 0 {
        assert(pow2(t) <= pow2(t) * (w - 1)) by (nonlinear_arith)
            requires w >= 2;
    }
    if !next.converged {
        assert(2 * (w2 - 1) <= w - 1);
        assert(pow2(t + 1) * (w2 - 1) < s.n - 1) by (nonlinear_arith)
            requires pow2(t) * (w - 1) < s.n - 1, 2 * (w2 - 1) <= w - 1, pow2(t + 1) == 2 * pow2(t), w2 >= 2;
        lemma_run(next, oracle, t + 1);
    }
}

proof fn lemma_run_straddles(s: BisectModel, oracle: spec_fn(int) -> bool, boundary: int)
    requires
        forall|i: int| #[trigger] oracle(i) == passes(i, boundary),
        bisect_wf(s),
        !s.converged,
        s.min_rev == 0 || s.min_rev < boundary,
        s.max_rev == s.n - 1 || s.max_rev >= boundary,
    ensures
        ({
            let f = bisect_run(s, oracle).0;
            &&& f.min_rev == 0 || f.min_rev < boundary
            &&& f.max_rev == s.n - 1 || f.max_rev >= boundary
            &&& f.n == s.n
        }),
    decreases bisect_measure(s),
{
    let next = bisect_step(s, oracle(s.pivot));
    lemma_step_shrinks(s, oracle(s.pivot));
    assert(bisect_run(s, oracle) == (bisect_run(next, oracle).0, bisect_run(next, oracle).1 + 1));
    if next.converged {
        assert(bisect_run(next, oracle) == (next, 0nat));
    } else {
        lemma_run_straddles(next, oracle, boundary);
    }
}

/// Whatever the outcomes of its tests, a search over `n` candidates ends
/// after `k` tests, where `k == 1` or `2^(k-1) < n - 1`: at most
/// `max(1, ceil(log2(n - 1)))` tests, so `2^k <= 2n`. Its final bracket is at
/// most one step wide.
pub proof fn lemma_bisect_converges(n: nat, oracle: spec_fn(int) -> bool)
    requires
        n >= 1,
    ensures
        ({
            let (f, k) = bisect_run(bisect_start(n), oracle);
            &&& f.converged
            &&& 0 <= f.min_rev <= f.max_rev < n
            &&& f.max_rev - f.min_rev <= 1
            &&& k >= 1
            &&& k == 1 || pow2((k - 1) as nat) < n - 1
            &&& pow2(k) <= 2 * n
        }),
{
    assert(pow2(0) == 1);
    lemma_run(bisect_start(n), oracle, 0);
    let k = bisect_run(bisect_start(n), oracle).1;
    assert(pow2(k) == 2 * pow2((k - 1) as nat));
}

/// Against a behavior that passes exactly below index `boundary`, the final
/// bracket straddles the boundary: every candidate below its lower end
/// passes, every candidate above its upper end fails, and when the boundary
/// lies inside the list the bracket is exactly `(boundary - 1, boundary)`.
pub proof fn lemma_bisect_brackets_boundary(n: nat, boundary: int)
    requires
        n >= 1,
    ensures
        ({
            let f = bisect_run(bisect_start(n), |i: int| passes(i, boundary)).0;
            &&& forall|i: int| 0 <= i < f.min_rev ==> #[trigger] passes(i, boundary)
            &&& forall|j: int| f.max_rev < j < n ==> !#[trigger] passes(j, boundary)
            &&& 1 <= boundary <= n - 1 ==> f.min_rev == boundary - 1 && f.max_rev == boundary
        }),
{
    let oracle = |i: int| passes(i, boundary);
    lemma_bisect_converges(n, oracle);
    lemma_run_straddles(bisect_start(n), oracle, boundary);
}

/// Why a bisection stopped.
#[derive(Debug)]
pub enum BisectError {
    HttpError(String),
    IoError(String),
    SemverError(VersionError),
    ElectronFailed,
}

/// The options of a bisection: the application to run, the first and last
/// version to consider (`*` for the oldest and the newest known), and whether
/// a person judges each run instead of its exit status.
#[derive(Debug)]
pub struct BisectCmd {
    pub path: String,
    pub start: String,
    pub end: String,
    pub interactive: bool,
}

/// Whether a version lies in the bisection's window: a release between
/// `start` and `end`, both included.
pub open spec fn in_window(v: VersionModel, start: VersionModel, end: VersionModel) -> bool {
    &&& !v.is_prerelease()
    &&& precedence(v, start) != Ordering::Less
    &&& precedence(v, end) != Ordering::Greater
}

/// The candidates among `all[i..]` (newest first), oldest first.
pub open spec fn candidates_from(all: Seq<VersionModel>, start: VersionModel, end: VersionModel, i: int) -> Seq<VersionModel>
    decreases all.len() - i,
{
    if i < 0 || i >= all.len() {
        Seq::empty()
    } else {
        let rest = candidates_from(all, start, end, i + 1);
        if in_window(all[i], start, end) { rest.push(all[i]) } else { rest }
    }
}

pub open spec fn versions_view(vs: Seq<Version>) -> Seq<VersionModel> {
    vs.map_values(|v: Version| v@)
}

impl BisectCmd {
    /// The version a bound names: `default` for `*`, else the bound itself.
    pub fn get_version(&self, specified: &str, default: &str) -> (r: Result<Version, BisectError>)
        ensures
            ({
                let text = if specified@ == "*"@ { default@ } else { specified@ };
                &&& r is Ok <==> semver_parse(text) is Some
                &&& r matches Ok(v) ==> semver_parse(text) == Some(v@)
                &&& r matches Err(e) ==> e matches BisectError::SemverError(VersionError::Invalid { input })
                    && input@ == text
            }),
    {
        proof { reveal_strlit("*"); }
        let text = if same_text(specified, "*") { default } else { specified };
        match Version::parse(text) {
            Ok(v) => Ok(v),
            Err(e) => Err(BisectError::SemverError(e)),
        }
    }

    /// The first and last version of the window, given every known version
    /// newest first: `*` stands for the oldest and the newest.
    pub fn window(&self, all: &Vec<Version>) -> (r: Result<(Version, Version), BisectError>)
        requires
            all@.len() >= 1,
        ensures
            ({
                let start_text = if self.start@ == "*"@ { version_text(all@[all@.len() - 1]@) } else { self.start@ };
                let end_text = if self.end@ == "*"@ { version_text(all@[0]@) } else { self.end@ };
                &&& r is Ok <==> semver_parse(start_text) is Some && semver_parse(end_text) is Some
                &&& r matches Ok((s, e)) ==> semver_parse(start_text) == Some(s@) && semver_parse(end_text) == Some(e@)
            }),
    {
        let oldest = all[all.len() - 1].render();
        let newest = all[0].render();
        let s = self.get_version(self.start.as_str(), oldest.as_str())?;
        let e = self.get_version(self.end.as_str(), newest.as_str())?;
        Ok((s, e))
    }

    /// The options that acquire exactly version `v`, prereleases included.
    pub fn pivot_options(&self, v: &Version) -> (r: Result<ElectronOpts, BisectError>)
        ensures
            r matches Ok(o) ==> !o@.range.any && o@.range.expr == version_text(v@) && o@.include_prerelease
                && !o@.force && o@.github_token is None,
            r is Err <==> !(crate::version::range_text_supported(version_text(v@))
                && crate::version::range_parses(version_text(v@))),
    {
        let text = v.render();
        match VersionRange::parse(text.as_str()) {
            Ok(range) => Ok(ElectronOpts::new().range(range).include_prerelease(true)),
            Err(e) => Err(BisectError::SemverError(e)),
        }
    }

    /// Whether a run passed: a person's answer when the bisection is
    /// interactive, else the run's exit status.
    pub fn test_passed(&self, exit_success: bool, answer: Option<bool>) -> (r: bool)
        ensures
            r == (if self.interactive && answer is Some { answer.unwrap() } else { exit_success }),
    {
        if self.interactive {
            match answer {
                Some(a) => a,
                None => exit_success,
            }
        } else {
            exit_success
        }
    }
}

/// The versions to bisect over, oldest first: the releases of `all` (newest
/// first) from `start` to `end`, both included.
pub fn bisect_candidates(all: &Vec<Version>, start: &Version, end: &Version) -> (r: Vec<Version>)
    ensures
        versions_view(r@) == candidates_from(versions_view(all@), start@, end@, 0),
{
    let ghost av = versions_view(all@);
    let mut out: Vec<Version> = Vec::new();
    let mut i: usize = all.len();
    while i > 0
        invariant
            i <= all@.len(),
            av == versions_view(all@),
            versions_view(out@) == candidates_from(av, start@, end@, i as int),
        decreases i,
    {
        i = i - 1;
        let v = &all[i];
        assert(av[i as int] == all@[i as int]@);
        let at_least_start = match v.compare(start) {
            Ordering::Less => false,
            _ => true,
        };
        let at_most_end = match v.compare(end) {
            Ordering::Greater => false,
            _ => true,
        };
        let keep = !v.is_prerelease() && at_least_start && at_most_end;
        assert(keep == in_window(av[i as int], start@, end@));
        if keep {
            out.push(v.duplicate());
            assert(versions_view(out@) =~= candidates_from(av, start@, end@, i + 1).push(av[i as int]));
        }
    }
    out
}

} // verus!
