//! Semantic versions and version ranges.
//!
//! Parsing, range satisfaction and precedence are those of `node_semver`;
//! a version is held here as plain values so that the rest of the library
//! can reason about it.

use vstd::prelude::*;
use core::cmp::Ordering;
use vstd::string::*;
use crate::text::{decimal, decimal_text};

verus! {

#[verifier::external_type_specification]
#[verifier::external_body]
pub struct ExSemverError(node_semver::SemverError);

#[verifier::external_type_specification]
#[verifier::external_body]
pub struct ExOutsideRange(node_semver::Range);

/// One dot-separated piece of a prerelease or build tag.
#[derive(Clone, Debug)]
pub enum Identifier {
    Numeric(u64),
    AlphaNumeric(String),
}

/// What an identifier denotes.
pub enum IdentifierModel {
    Numeric(u64),
    AlphaNumeric(Seq<char>),
}

impl View for Identifier {
    type V = IdentifierModel;

    open spec fn view(&self) -> IdentifierModel {
        match self {
            Identifier::Numeric(n) => IdentifierModel::Numeric(*n),
            Identifier::AlphaNumeric(s) => IdentifierModel::AlphaNumeric(s@),
        }
    }
}

/// A semantic version: `major.minor.patch`, an optional prerelease tag and
/// optional build metadata.
#[derive(Clone, Debug)]
pub struct Version {
    pub major: u64,
    pub minor: u64,
    pub patch: u64,
    pub pre_release: Vec<Identifier>,
    pub build: Vec<Identifier>,
}

/// What a version denotes.
pub struct VersionModel {
    pub major: u64,
    pub minor: u64,
    pub patch: u64,
    pub pre_release: Seq<IdentifierModel>,
    pub build: Seq<IdentifierModel>,
}

pub open spec fn ids_view(ids: Seq<Identifier>) -> Seq<IdentifierModel> {
    ids.map_values(|i: Identifier| i@)
}

impl View for Version {
    type V = VersionModel;

    open spec fn view(&self) -> VersionModel {
        VersionModel {
            major: self.major,
            minor: self.minor,
            patch: self.patch,
            pre_release: ids_view(self.pre_release@),
            build: ids_view(self.build@),
        }
    }
}

impl VersionModel {
    pub open spec fn is_prerelease(self) -> bool {
        self.pre_release.len() > 0
    }
}

pub open spec fn identifier_text(i: IdentifierModel) -> Seq<char> {
    match i {
        IdentifierModel::Numeric(n) => decimal(n as nat),
        IdentifierModel::AlphaNumeric(s) => s,
    }
}

/// Identifiers written out and separated by dots.
pub open spec fn joined(ids: Seq<IdentifierModel>) -> Seq<char>
    decreases ids.len(),
{
    if ids.len() == 0 {
        Seq::empty()
    } else if ids.len() == 1 {
        identifier_text(ids[0])
    } else {
        joined(ids.drop_last()) + seq!['.'] + identifier_text(ids.last())
    }
}

/// The usual text of a version: `1.2.3`, `1.2.3-beta.4`, `1.2.3-rc.1+build.5`.
pub open spec fn version_text(v: VersionModel) -> Seq<char> {
    decimal(v.major as nat) + seq!['.'] + decimal(v.minor as nat) + seq!['.']
        + decimal(v.patch as nat)
        + (if v.pre_release.len() == 0 { Seq::empty() } else { seq!['-'] + joined(v.pre_release) })
        + (if v.build.len() == 0 { Seq::empty() } else { seq!['+'] + joined(v.build) })
}

/// The version that `node_semver` parses out of a text, if it parses.
pub uninterp spec fn semver_parse(text: Seq<char>) -> Option<VersionModel>;

/// Whether the range expression `expr` admits version `v`, as `node_semver`
/// decides it.
pub uninterp spec fn range_admits(expr: Seq<char>, v: VersionModel) -> bool;

/// Whether `node_semver` accepts a text as a range expression.
pub uninterp spec fn range_parses(expr: Seq<char>) -> bool;

/// Lexicographic order of two character sequences by code point, which is the
/// byte order of their UTF-8 encodings.
pub open spec fn text_cmp(a: Seq<char>, b: Seq<char>) -> Ordering
    decreases a.len(),
{
    if a.len() == 0 {
        if b.len() == 0 { Ordering::Equal } else { Ordering::Less }
    } else if b.len() == 0 {
        Ordering::Greater
    } else if (a[0] as u32) < (b[0] as u32) {
        Ordering::Less
    } else if (a[0] as u32) > (b[0] as u32) {
        Ordering::Greater
    } else {
        text_cmp(a.drop_first(), b.drop_first())
    }
}

pub open spec fn num_cmp(a: int, b: int) -> Ordering {
    if a < b { Ordering::Less } else if a > b { Ordering::Greater } else { Ordering::Equal }
}

/// Numeric identifiers sort before alphanumeric ones.
pub open spec fn identifier_cmp(a: IdentifierModel, b: IdentifierModel) -> Ordering {
    match (a, b) {
        (IdentifierModel::Numeric(x), IdentifierModel::Numeric(y)) => num_cmp(x as int, y as int),
        (IdentifierModel::Numeric(_), IdentifierModel::AlphaNumeric(_)) => Ordering::Less,
        (IdentifierModel::AlphaNumeric(_), IdentifierModel::Numeric(_)) => Ordering::Greater,
        (IdentifierModel::AlphaNumeric(x), IdentifierModel::AlphaNumeric(y)) => text_cmp(x, y),
    }
}

/// Lexicographic order of identifier lists.
pub open spec fn identifiers_cmp(a: Seq<IdentifierModel>, b: Seq<IdentifierModel>) -> Ordering
    decreases a.len(),
{
    if a.len() == 0 {
        if b.len() == 0 { Ordering::Equal } else { Ordering::Less }
    } else if b.len() == 0 {
        Ordering::Greater
    } else if identifier_cmp(a[0], b[0]) != Ordering::Equal {
        identifier_cmp(a[0], b[0])
    } else {
        identifiers_cmp(a.drop_first(), b.drop_first())
    }
}

/// Semantic-version precedence: the numeric triple first; then a release
/// ranks above any prerelease of the same triple; two prereleases compare by
/// their identifiers. Build metadata takes no part.
pub open spec fn precedence(a: VersionModel, b: VersionModel) -> Ordering {
    if a.major != b.major {
        num_cmp(a.major as int, b.major as int)
    } else if a.minor != b.minor {
        num_cmp(a.minor as int, b.minor as int)
    } else if a.patch != b.patch {
        num_cmp(a.patch as int, b.patch as int)
    } else if a.pre_release.len() == 0 && b.pre_release.len() == 0 {
        Ordering::Equal
    } else if a.pre_release.len() == 0 {
        Ordering::Greater
    } else if b.pre_release.len() == 0 {
        Ordering::Less
    } else {
        identifiers_cmp(a.pre_release, b.pre_release)
    }
}

/// Relies on `node_semver::Version::parse` (through `FromStr`).
#[verifier::external_body]
pub(crate) fn parse_semver(text: &str) -> (r: Result<Version, node_semver::SemverError>)
    ensures
        r is Ok <==> semver_parse(text@) is Some,
        r matches Ok(v) ==> semver_parse(text@) == Some(v@),
{
    let conv = |ids: Vec<node_semver::Identifier>| ids.into_iter().map(|i| match i {
        node_semver::Identifier::Numeric(n) => Identifier::Numeric(n),
        node_semver::Identifier::AlphaNumeric(s) => Identifier::AlphaNumeric(s),
    }).collect::<Vec<_>>();
    text.parse::<node_semver::Version>().map(|v| Version {
        major: v.major, minor: v.minor, patch: v.patch,
        pre_release: conv(v.pre_release), build: conv(v.build),
    })
}


/// Relies on `node_semver::Version::cmp`.
#[verifier::external_body]
fn compare_semver(a: &Version, b: &Version) -> (r: Ordering)
    ensures
        r == precedence(a@, b@),
{
    let conv = |ids: &Vec<Identifier>| ids.iter().map(|i| match i {
        Identifier::Numeric(n) => node_semver::Identifier::Numeric(*n),
        Identifier::AlphaNumeric(s) => node_semver::Identifier::AlphaNumeric(s.clone()),
    }).collect::<Vec<_>>();
    let out = |v: &Version| node_semver::Version {
        major: v.major, minor: v.minor, patch: v.patch,
        pre_release: conv(&v.pre_release), build: conv(&v.build),
    };
    out(a).cmp(&out(b))
}

fn identifier_render(i: &Identifier) -> (r: String)
    ensures
        r@ == identifier_text(i@),
{
    match i {
        Identifier::Numeric(n) => decimal_text(*n),
        Identifier::AlphaNumeric(s) => s.clone(),
    }
}

fn joined_render(ids: &Vec<Identifier>) -> (r: String)
    ensures
        r@ == joined(ids_view(ids@)),
{
    let mut acc = String::new();
    let mut i: usize = 0;
    proof { reveal_strlit("."); }
    while i < ids.len()
        invariant
            i <= ids@.len(),
            acc@ == joined(ids_view(ids@.take(i as int))),
        decreases ids@.len() - i,
    {
        let piece = identifier_render(&ids[i]);
        let ghost next = ids_view(ids@.take(i + 1));
        assert(next.drop_last() =~= ids_view(ids@.take(i as int)));
        assert(next.last() == ids@[i as int]@);
        assert(next.len() == i + 1);
        if i == 0 {
            assert(next[0] == ids@[0]@);
            acc = piece;
            assert(acc@ == joined(next));
        } else {
            proof { reveal_strlit("."); }
            acc = acc.concat(".").concat(piece.as_str());
            assert(joined(next) == joined(next.drop_last()) + seq!['.'] + identifier_text(next.last()));
            assert(acc@ == joined(next));
        }
        i = i + 1;
    }
    assert(ids@.take(ids@.len() as int) =~= ids@);
    acc
}

impl Identifier {
    /// A copy with the same content.
    pub fn duplicate(&self) -> (r: Identifier)
        ensures
            r@ == self@,
    {
        match self {
            Identifier::Numeric(n) => Identifier::Numeric(*n),
            Identifier::AlphaNumeric(s) => Identifier::AlphaNumeric(s.clone()),
        }
    }
}

fn duplicate_ids(ids: &Vec<Identifier>) -> (r: Vec<Identifier>)
    ensures
        ids_view(r@) == ids_view(ids@),
{
    let mut out: Vec<Identifier> = Vec::new();
    let mut i: usize = 0;
    while i < ids.len()
        invariant
            i <= ids@.len(),
            out@.len() == i,
            forall|k: int| 0 <= k < i ==> out@[k]@ == ids@[k]@,
        decreases ids@.len() - i,
    {
        out.push(ids[i].duplicate());
        i = i + 1;
    }
    assert(ids_view(out@) =~= ids_view(ids@));
    out
}

impl Version {
    /// A copy with the same content.
    pub fn duplicate(&self) -> (r: Version)
        ensures
            r@ == self@,
    {
        Version {
            major: self.major,
            minor: self.minor,
            patch: self.patch,
            pre_release: duplicate_ids(&self.pre_release),
            build: duplicate_ids(&self.build),
        }
    }

    /// The usual text of the version, as `node_semver` writes it.
    pub fn render(&self) -> (r: String)
        ensures
            r@ == version_text(self@),
    {
        proof { reveal_strlit("."); reveal_strlit("-"); reveal_strlit("+"); }
        let mut out = decimal_text(self.major).concat(".");
        out = out.concat(decimal_text(self.minor).as_str()).concat(".");
        out = out.concat(decimal_text(self.patch).as_str());
        if self.pre_release.len() > 0 {
            out = out.concat("-").concat(joined_render(&self.pre_release).as_str());
        }
        if self.build.len() > 0 {
            out = out.concat("+").concat(joined_render(&self.build).as_str());
        }
        assert(out@ =~= version_text(self@));
        out
    }

    /// Parses a version such as `13.1.0` or `14.0.0-beta.2`.
    pub fn parse(text: &str) -> (r: Result<Version, VersionError>)
        ensures
            r is Ok <==> semver_parse(text@) is Some,
            r matches Ok(v) ==> semver_parse(text@) == Some(v@),
            r matches Err(e) ==> e@ == (VersionErrorModel::Invalid { input: text@ }),
    {
        match parse_semver(text) {
            Ok(v) => Ok(v),
            Err(_) => Err(VersionError::Invalid { input: String::from_str(text) }),
        }
    }

    pub fn is_prerelease(&self) -> (r: bool)
        ensures
            r == self@.is_prerelease(),
    {
        self.pre_release.len() > 0
    }

    /// Semantic-version precedence of `self` against `other`.
    pub fn compare(&self, other: &Version) -> (r: Ordering)
        ensures
            r == precedence(self@, other@),
    {
        compare_semver(self, other)
    }
}

/// A version text that could not be parsed.
#[derive(Clone, Debug)]
pub enum VersionError {
    Invalid { input: String },
    InvalidRange { input: String },
}

/// What a version error denotes.
pub enum VersionErrorModel {
    Invalid { input: Seq<char> },
    InvalidRange { input: Seq<char> },
}

impl View for VersionError {
    type V = VersionErrorModel;

    open spec fn view(&self) -> VersionErrorModel {
        match self {
            VersionError::Invalid { input } => VersionErrorModel::Invalid { input: input@ },
            VersionError::InvalidRange { input } => VersionErrorModel::InvalidRange { input: input@ },
        }
    }
}

/// A version constraint: either the unconstrained wildcard, or a range
/// expression such as `^13.0.0`, `>=2 <4` or `1.2.3`.
///
/// `inner` is always the `node_semver` range built from `any` and `expr`:
/// the fields are private and only `VersionRange::any` and `VersionRange::parse` build one.
pub struct VersionRange {
    any: bool,
    expr: String,
    inner: node_semver::Range,
}

/// What a range denotes: the wildcard, or the text of a range expression.
pub struct RangeModel {
    pub any: bool,
    pub expr: Seq<char>,
}

impl View for VersionRange {
    type V = RangeModel;

    closed spec fn view(&self) -> RangeModel {
        RangeModel { any: self.any, expr: self.expr@ }
    }
}

impl RangeModel {
    /// The wildcard admits every release and no prerelease; an expression
    /// admits what `node_semver` says it does.
    pub open spec fn admits(self, v: VersionModel) -> bool {
        if self.any {
            !v.is_prerelease()
        } else {
            range_admits(self.expr, v)
        }
    }

    /// How the range is shown to a user.
    pub open spec fn text(self) -> Seq<char> {
        if self.any { seq!['*'] } else { self.expr }
    }
}

/// Relies on `node_semver::Range::any`.
#[verifier::external_body]
fn outside_any_range() -> node_semver::Range {
    node_semver::Range::any()
}

pub open spec fn is_wildcard(c: char) -> bool {
    c == 'x' || c == 'X' || c == '*'
}

pub open spec fn is_digit(c: char) -> bool {
    '0' <= c && c <= '9'
}

pub open spec fn is_blank(c: char) -> bool {
    c == ' ' || c == '\t'
}

/// The first position from `j` on that holds no blank.
pub open spec fn skip_blanks(s: Seq<char>, j: int) -> int
    decreases s.len() - j,
{
    if 0 <= j < s.len() && is_blank(s[j]) { skip_blanks(s, j + 1) } else { j }
}

/// The first position from `j` on that holds no digit.
pub open spec fn skip_digits(s: Seq<char>, j: int) -> int
    decreases s.len() - j,
{
    if 0 <= j < s.len() && is_digit(s[j]) { skip_digits(s, j + 1) } else { j }
}

/// Where the version of a comparator whose operator ends before `j` starts:
/// past blanks, an optional `v`, and blanks again.
pub open spec fn version_start(s: Seq<char>, j: int) -> int {
    let k = skip_blanks(s, j);
    if 0 <= k < s.len() && s[k] == 'v' { skip_blanks(s, k + 1) } else { k }
}

pub open spec fn wildcard_at(s: Seq<char>, j: int) -> bool {
    0 <= j < s.len() && is_wildcard(s[j])
}

/// An exact comparator (`=` not part of `>=` or `<=`) at `i` whose major
/// version is a wildcard, as in `=*`.
pub open spec fn exact_wildcard_at(s: Seq<char>, i: int) -> bool {
    &&& 0 <= i < s.len() && s[i] == '='
    &&& i == 0 || (s[i - 1] != '>' && s[i - 1] != '<')
    &&& wildcard_at(s, version_start(s, i + 1))
}

/// Where the version of a tilde comparator (`~` or `~>`) at `i` starts.
pub open spec fn tilde_operand(s: Seq<char>, i: int) -> int {
    let j = skip_blanks(s, i + 1);
    if 0 <= j < s.len() && s[j] == '>' { version_start(s, j + 1) } else { version_start(s, j) }
}

/// A tilde comparator at `i` whose major version is a wildcard (`~*`), or
/// whose minor version is a wildcard followed by a numeric patch (`~1.x.2`).
pub open spec fn tilde_wildcard_at(s: Seq<char>, i: int) -> bool {
    &&& 0 <= i < s.len() && s[i] == '~'
    &&& {
        let k = tilde_operand(s, i);
        let d = skip_digits(s, k);
        wildcard_at(s, k) || (d > k && d + 3 < s.len() && s[d] == '.' && is_wildcard(s[d + 1])
            && s[d + 2] == '.' && is_digit(s[d + 3]))
    }
}

/// A comparator at `i` on which `node_semver`'s range parser would reach
/// `unreachable!`.
pub open spec fn parser_panics_at(s: Seq<char>, i: int) -> bool {
    exact_wildcard_at(s, i) || tilde_wildcard_at(s, i)
}

/// Range texts that `node_semver`'s range parser handles without panicking:
/// those with no exact comparator whose major version is a wildcard (`=*`,
/// `= x`) and no tilde comparator whose major version is a wildcard (`~*`)
/// or whose minor version is a wildcard followed by a numeric patch
/// (`~1.x.2`). Such comparators have no meaning in any case.
pub open spec fn range_text_supported(s: Seq<char>) -> bool {
    forall|i: int| 0 <= i < s.len() ==> !#[trigger] parser_panics_at(s, i)
}

fn skip_blanks_exec(text: &str, n: usize, j: usize) -> (r: usize)
    requires
        n == text@.len(),
        j <= n,
    ensures
        r == skip_blanks(text@, j as int),
        j <= r <= n,
{
    let mut k = j;
    while k < n && (text.get_char(k) == ' ' || text.get_char(k) == '\t')
        invariant
            n == text@.len(),
            j <= k <= n,
            skip_blanks(text@, j as int) == skip_blanks(text@, k as int),
        decreases n - k,
    {
        k = k + 1;
    }
    k
}

fn skip_digits_exec(text: &str, n: usize, j: usize) -> (r: usize)
    requires
        n == text@.len(),
        j <= n,
    ensures
        r == skip_digits(text@, j as int),
        j <= r <= n,
{
    let mut k = j;
    while k < n && '0' <= text.get_char(k) && text.get_char(k) <= '9'
        invariant
            n == text@.len(),
            j <= k <= n,
            skip_digits(text@, j as int) == skip_digits(text@, k as int),
        decreases n - k,
    {
        k = k + 1;
    }
    k
}

fn version_start_exec(text: &str, n: usize, j: usize) -> (r: usize)
    requires
        n == text@.len(),
        j <= n,
    ensures
        r == version_start(text@, j as int),
        r <= n,
{
    let k = skip_blanks_exec(text, n, j);
    if k < n && text.get_char(k) == 'v' {
        skip_blanks_exec(text, n, k + 1)
    } else {
        k
    }
}

fn wildcard_at_exec(text: &str, n: usize, j: usize) -> (r: bool)
    requires
        n == text@.len(),
    ensures
        r == wildcard_at(text@, j as int),
{
    if j < n {
        let c = text.get_char(j);
        c == 'x' || c == 'X' || c == '*'
    } else {
        false
    }
}

fn parser_panics_at_exec(text: &str, n: usize, i: usize) -> (r: bool)
    requires
        n == text@.len(),
        i < n,
    ensures
        r == parser_panics_at(text@, i as int),
{
    let c = text.get_char(i);
    if c == '=' {
        let bare = i == 0 || (text.get_char(i - 1) != '>' && text.get_char(i - 1) != '<');
        bare && wildcard_at_exec(text, n, version_start_exec(text, n, i + 1))
    } else if c == '~' {
        let j = skip_blanks_exec(text, n, i + 1);
        let k = if j < n && text.get_char(j) == '>' {
            version_start_exec(text, n, j + 1)
        } else {
            version_start_exec(text, n, j)
        };
        if wildcard_at_exec(text, n, k) {
            return true;
        }
        let d = skip_digits_exec(text, n, k);
        d > k && n >= 4 && d < n - 3 && text.get_char(d) == '.' && wildcard_at_exec(text, n, d + 1)
            && text.get_char(d + 2) == '.' && '0' <= text.get_char(d + 3) && text.get_char(d + 3) <= '9'
    } else {
        false
    }
}

/// Whether a range text is one that `node_semver` parses without panicking.
pub fn supported_range_text(text: &str) -> (r: bool)
    ensures
        r == range_text_supported(text@),
{
    let n = text.unicode_len();
    let mut i: usize = 0;
    while i < n
        invariant
            n == text@.len(),
            i <= n,
            forall|k: int| 0 <= k < i ==> !#[trigger] parser_panics_at(text@, k),
        decreases n - i,
    {
        if parser_panics_at_exec(text, n, i) {
            return false;
        }
        i = i + 1;
    }
    true
}

/// Relies on `node_semver::Range::parse`, on texts where it does not panic.
#[verifier::external_body]
fn parse_outside_range(text: &str) -> (r: Result<node_semver::Range, node_semver::SemverError>)
    requires
        range_text_supported(text@),
    ensures
        r is Ok <==> range_parses(text@),
{
    node_semver::Range::parse(text)
}

/// Relies on `node_semver::Range::satisfies`, which for `Range::any()`
/// accepts every version without a prerelease tag and rejects the others.
#[verifier::external_body]
fn outside_satisfies(range: &VersionRange, v: &Version) -> (r: bool)
    ensures
        r == (if range@.any { !v@.is_prerelease() } else { range_admits(range@.expr, v@) }),
{
    let conv = |ids: &Vec<Identifier>| ids.iter().map(|i| match i {
        Identifier::Numeric(n) => node_semver::Identifier::Numeric(*n),
        Identifier::AlphaNumeric(s) => node_semver::Identifier::AlphaNumeric(s.clone()),
    }).collect::<Vec<_>>();
    range.inner.satisfies(&node_semver::Version {
        major: v.major, minor: v.minor, patch: v.patch,
        pre_release: conv(&v.pre_release), build: conv(&v.build),
    })
}

impl VersionRange {
    /// The unconstrained wildcard.
    pub fn any() -> (r: VersionRange)
        ensures
            r@.any,
            r@.expr == seq!['*'],
    {
        let star = String::from_str("*");
        proof { reveal_strlit("*"); }
        VersionRange { any: true, expr: star, inner: outside_any_range() }
    }

    /// Parses a range expression. Texts that the parser cannot take safely
    /// (see `range_text_supported`) are rejected like malformed ones.
    pub fn parse(text: &str) -> (r: Result<VersionRange, VersionError>)
        ensures
            r is Ok <==> range_text_supported(text@) && range_parses(text@),
            r matches Ok(g) ==> !g@.any && g@.expr == text@,
            r matches Err(e) ==> e@ == (VersionErrorModel::InvalidRange { input: text@ }),
    {
        if !supported_range_text(text) {
            return Err(VersionError::InvalidRange { input: String::from_str(text) });
        }
        match parse_outside_range(text) {
            Ok(inner) => Ok(VersionRange { any: false, expr: String::from_str(text), inner }),
            Err(_) => Err(VersionError::InvalidRange { input: String::from_str(text) }),
        }
    }

    /// Whether the range admits `v`.
    pub fn satisfies(&self, v: &Version) -> (r: bool)
        ensures
            r == self@.admits(v@),
    {
        outside_satisfies(self, v)
    }

    pub fn is_any(&self) -> (r: bool)
        ensures
            r == self@.any,
    {
        self.any
    }

    /// How the range is shown to a user: `*` for the wildcard, else the
    /// expression as it was written.
    pub fn text(&self) -> (r: String)
        ensures
            r@ == self@.text(),
    {
        if self.any {
            proof { reveal_strlit("*"); }
            String::from_str("*")
        } else {
            self.expr.clone()
        }
    }
}

} // verus!
