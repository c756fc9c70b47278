use vstd::prelude::*;

use crate::text::{
    chars_of, copy_range, parse_u64, parse_u64_spec, split_char, split_chars, trim,
    trim_chars,
};

verus! {

/// The reply of a record collector's version endpoint.
#[derive(Debug, Clone, PartialEq, Eq)]
pub struct VersionApiResponse {
    pub version: String,
}

/// Why a version text is not a semantic version.
#[derive(Debug, Clone, Copy, PartialEq, Eq, Structural)]
pub enum VersionError {
    Empty,
    MissingMinor,
    MissingPatch,
    InvalidNumber,
    TooManyComponents,
}

/// The numeric core of a semantic version; the patch number is read but takes no part in
/// comparisons.
#[derive(Debug, Clone, Copy, PartialEq, Eq, Structural)]
pub struct SemanticVersion {
    pub major: u64,
    pub minor: u64,
    pub patch: u64,
}

/// The length of the part of `s` before the first `-` or `+`.
pub open spec fn core_len(s: Seq<char>) -> int
    decreases s.len(),
{
    if s.len() == 0 {
        0
    } else if s[0] == '-' || s[0] == '+' {
        0
    } else {
        1 + core_len(s.drop_first())
    }
}

/// What a version text denotes: after trimming, the part before any pre-release (`-`) or build
/// (`+`) suffix must be exactly three dot-separated unsigned integers.
pub open spec fn parse_version_spec(value: Seq<char>) -> Result<SemanticVersion, VersionError> {
    let t = trim(value);
    if t.len() == 0 {
        Err(VersionError::Empty)
    } else {
        let parts = split_char(t.take(core_len(t)), '.');
        if parse_u64_spec(parts[0]) is None {
            Err(VersionError::InvalidNumber)
        } else if parts.len() < 2 {
            Err(VersionError::MissingMinor)
        } else if parse_u64_spec(parts[1]) is None {
            Err(VersionError::InvalidNumber)
        } else if parts.len() < 3 {
            Err(VersionError::MissingPatch)
        } else if parse_u64_spec(parts[2]) is None {
            Err(VersionError::InvalidNumber)
        } else if parts.len() > 3 {
            Err(VersionError::TooManyComponents)
        } else {
            Ok(
                SemanticVersion {
                    major: parse_u64_spec(parts[0])->0,
                    minor: parse_u64_spec(parts[1])->0,
                    patch: parse_u64_spec(parts[2])->0,
                },
            )
        }
    }
}

/// Whether `candidate` lags `current` by at least a minor version.
pub open spec fn lags_minor(candidate: SemanticVersion, current: SemanticVersion) -> bool {
    candidate.major < current.major || (candidate.major == current.major && candidate.minor
        < current.minor)
}

/// The result of comparing two version texts.
pub open spec fn outdated_spec(current: Seq<char>, candidate: Seq<char>) -> Result<
    bool,
    VersionError,
> {
    match parse_version_spec(current) {
        Err(e) => Err(e),
        Ok(cur) => match parse_version_spec(candidate) {
            Err(e) => Err(e),
            Ok(cand) => Ok(lags_minor(cand, cur)),
        },
    }
}

fn core_length(t: &[char]) -> (n: usize)
    ensures
        n == core_len(t@),
        n <= t.len(),
{
    let mut i: usize = 0;
    assert(t@.skip(0) =~= t@);
    while i < t.len() && t[i] != '-' && t[i] != '+'
        invariant
            i <= t.len(),
            core_len(t@) == i + core_len(t@.skip(i as int)),
        decreases t.len() - i,
    {
        assert(t@.skip(i as int).drop_first() =~= t@.skip(i + 1));
        i += 1;
    }
    i
}

impl SemanticVersion {
    pub fn is_minor_or_more_outdated_than(self, current: Self) -> (b: bool)
        ensures
            b == lags_minor(self, current),
    {
        self.major < current.major || (self.major == current.major && self.minor < current.minor)
    }

    /// Reads a version text, as the `FromStr` impl of the version type does.
    pub fn parse(value: &str) -> (r: Result<Self, VersionError>)
        ensures
            r == parse_version_spec(value@),
    {
        let v = chars_of(value);
        let t = trim_chars(v.as_slice());
        if t.len() == 0 {
            return Err(VersionError::Empty);
        }
        let n = core_length(t.as_slice());
        let core = copy_range(t.as_slice(), 0, n);
        assert(core@ == t@.take(core_len(t@)));
        let parts = split_chars(core.as_slice(), '.');
        proof {
            crate::text::lemma_split_char_nonempty(core@, '.');
        }
        let major = match parse_u64(parts[0].as_slice()) {
            Some(x) => x,
            None => {
                return Err(VersionError::InvalidNumber);
            },
        };
        if parts.len() < 2 {
            return Err(VersionError::MissingMinor);
        }
        let minor = match parse_u64(parts[1].as_slice()) {
            Some(x) => x,
            None => {
                return Err(VersionError::InvalidNumber);
            },
        };
        if parts.len() < 3 {
            return Err(VersionError::MissingPatch);
        }
        let patch = match parse_u64(parts[2].as_slice()) {
            Some(x) => x,
            None => {
                return Err(VersionError::InvalidNumber);
            },
        };
        if parts.len() > 3 {
            return Err(VersionError::TooManyComponents);
        }
        Ok(SemanticVersion { major, minor, patch })
    }
}

/// Whether `candidate_version` is behind `current_version` by a minor version or more.
pub fn is_minor_or_more_outdated(current_version: &str, candidate_version: &str) -> (r: Result<
    bool,
    VersionError,
>)
    ensures
        r == outdated_spec(current_version@, candidate_version@),
{
    let current = SemanticVersion::parse(current_version)?;
    let candidate = SemanticVersion::parse(candidate_version)?;
    Ok(candidate.is_minor_or_more_outdated_than(current))
}

/// No version is outdated against itself.
pub proof fn law_outdated_irreflexive(v: Seq<char>)
    requires
        parse_version_spec(v) is Ok,
    ensures
        outdated_spec(v, v) == Ok::<bool, VersionError>(false),
{
}

/// Being outdated is asymmetric.
pub proof fn law_outdated_asymmetric(a: Seq<char>, b: Seq<char>)
    requires
        outdated_spec(a, b) == Ok::<bool, VersionError>(true),
    ensures
        outdated_spec(b, a) == Ok::<bool, VersionError>(false),
{
}

/// Being outdated is transitive: if `c` lags `b` and `b` lags `a`, then `c` lags `a`.
pub proof fn law_outdated_transitive(a: Seq<char>, b: Seq<char>, c: Seq<char>)
    requires
        outdated_spec(a, b) == Ok::<bool, VersionError>(true),
        outdated_spec(b, c) == Ok::<bool, VersionError>(true),
    ensures
        outdated_spec(a, c) == Ok::<bool, VersionError>(true),
{
}

/// A patch-level difference never makes a version outdated.
pub proof fn law_patch_difference_not_outdated(a: Seq<char>, b: Seq<char>)
    requires
        parse_version_spec(a) matches Ok(x) && parse_version_spec(b) matches Ok(y) && x.major
            == y.major && x.minor == y.minor,
    ensures
        outdated_spec(a, b) == Ok::<bool, VersionError>(false),
{
}

} // verus!
