//! The matcher: one glob pattern for every search location and identifier
//! pair, evaluated against the filesystem in location-major order.

use vstd::prelude::*;
use vstd::string::{StrSliceExecFns, StringExecFns};
use crate::locations::views;

verus! {

/// The pattern for one (location, identifier) pair: `{location}/{identifier}*`.
pub open spec fn pattern_spec(loc: Seq<char>, id: Seq<char>) -> Seq<char> {
    loc + "/"@ + id + "*"@
}

/// The pattern standing at position `k` of the matcher's location-major,
/// identifier-minor enumeration.
pub open spec fn pattern_at(locs: Seq<Seq<char>>, ids: Seq<Seq<char>>, k: int) -> Seq<char> {
    pattern_spec(locs[k / ids.len() as int], ids[k % ids.len() as int])
}

pub fn pattern_for(loc: &str, id: &str) -> (r: String)
    ensures
        r@ == pattern_spec(loc@, id@),
{
    let mut s = loc.to_owned();
    s.append("/");
    s.append(id);
    s.append("*");
    s
}

/// Every pattern the matcher evaluates: locations outermost, identifiers
/// innermost, so position `i * ids.len() + j` pairs location `i` with
/// identifier `j`.
pub fn build_patterns(locs: &Vec<String>, ids: &Vec<String>) -> (r: Vec<String>)
    requires
        locs@.len() * ids@.len() <= usize::MAX,
    ensures
        r@.len() == locs@.len() * ids@.len(),
        forall|k: int|
            0 <= k < r@.len() ==> (#[trigger] r@[k])@ == pattern_at(views(locs@), views(ids@), k),
{
    let n = locs.len();
    let m = ids.len();
    let mut r: Vec<String> = Vec::new();
    let mut i: usize = 0;
    while i < n
        invariant
            i <= n,
            n == locs@.len(),
            m == ids@.len(),
            r@.len() == i * m,
            i * m <= n * m,
            forall|k: int|
                0 <= k < r@.len() ==> (#[trigger] r@[k])@ == pattern_at(
                    views(locs@),
                    views(ids@),
                    k,
                ),
        decreases n - i,
    {
        let mut j: usize = 0;
        while j < m
            invariant
                i < n,
                j <= m,
                n == locs@.len(),
                m == ids@.len(),
                r@.len() == i * m + j,
                i * m + j <= n * m,
                forall|k: int|
                    0 <= k < r@.len() ==> (#[trigger] r@[k])@ == pattern_at(
                        views(locs@),
                        views(ids@),
                        k,
                    ),
            decreases m - j,
        {
            let p = pattern_for(locs[i].as_str(), ids[j].as_str());
            r.push(p);
            proof {
                vstd::arithmetic::div_mod::lemma_fundamental_div_mod_converse(
                    i * m + j,
                    m as int,
                    i as int,
                    j as int,
                );
                assert(i * m + j + 1 <= n * m) by (nonlinear_arith)
                    requires i < n, j < m, 0 <= i, 0 <= j;
            }
            j = j + 1;
        }
        proof {
            assert(i * m + m == (i + 1) * m) by (nonlinear_arith);
        }
        i = i + 1;
    }
    r
}

/// Whether the glob library accepts a pattern text. `glob::glob_with`
/// decides this from the text alone, by parsing the whole pattern and each
/// of its path components with `glob::Pattern::new`.
pub uninterp spec fn pattern_ok(p: Seq<char>) -> bool;

#[verifier::external_type_specification]
#[verifier::external_body]
pub struct ExPatternError(glob::PatternError);

/// The matcher's only error: the glob library refused a pattern's syntax.
#[derive(Debug)]
pub enum MatchError {
    BadPattern,
}

/// Relies on glob::glob_with: it returns `Err` exactly when the pattern text
/// cannot be parsed, a condition of the text alone that the three option
/// flags play no part in; on success it walks the filesystem and yields the
/// matching paths in alphabetical order, honouring the flags — though `*`
/// never crosses a separator while globbing, whatever the second flag says;
/// only `**` descends. Paths the walk cannot read are skipped, so only
/// successful matches come back.
#[verifier::external_body]
fn glob_paths(
    pattern: &str,
    case_sensitive: bool,
    require_literal_separator: bool,
    require_literal_leading_dot: bool,
) -> (r: Result<Vec<String>, glob::PatternError>)
    ensures
        r is Ok <==> pattern_ok(pattern@),
{
    let options = glob::MatchOptions {
        case_sensitive,
        require_literal_separator,
        require_literal_leading_dot,
    };
    match glob::glob_with(pattern, options) {
        Ok(paths) => Ok(paths.filter_map(Result::ok).map(|p| p.display().to_string()).collect()),
        Err(e) => Err(e),
    }
}

/// Evaluates every pattern against the filesystem — case-insensitively,
/// with `*` free to match a leading dot — and flattens the hits into one
/// list, pattern order and discovery order preserved, duplicates kept.
/// `Err` exactly when the glob library refuses some pattern's syntax; what
/// the hits are depends on what is on disk, so nothing more is promised of
/// them.
pub fn run_globs(patterns: &Vec<String>) -> (r: Result<Vec<String>, MatchError>)
    ensures
        r is Ok <==> (forall|k: int| 0 <= k < patterns@.len() ==> pattern_ok(#[trigger] patterns@[k]@)),
{
    let mut found: Vec<String> = Vec::new();
    let mut i: usize = 0;
    while i < patterns.len()
        invariant
            i <= patterns@.len(),
            forall|k: int| 0 <= k < i ==> pattern_ok(#[trigger] patterns@[k]@),
        decreases patterns@.len() - i,
    {
        match glob_paths(patterns[i].as_str(), false, false, false) {
            Ok(mut hits) => {
                found.append(&mut hits);
            },
            Err(_) => {
                return Err(MatchError::BadPattern);
            },
        }
        i = i + 1;
    }
    Ok(found)
}

/// The whole matcher stage: the pattern for every (location, identifier)
/// pair, locations outermost, evaluated against the filesystem in that
/// order. `Err` exactly when the glob library refuses one of the patterns.
pub fn find_matches(locs: &Vec<String>, ids: &Vec<String>) -> (r: Result<Vec<String>, MatchError>)
    requires
        locs@.len() * ids@.len() <= usize::MAX,
    ensures
        r is Ok <==> (forall|k: int|
            0 <= k < locs@.len() * ids@.len() ==> pattern_ok(
                #[trigger] pattern_at(views(locs@), views(ids@), k),
            )),
{
    let patterns = build_patterns(locs, ids);
    let r = run_globs(&patterns);
    proof {
        assert(forall|k: int|
            0 <= k < patterns@.len() ==> patterns@[k]@ == #[trigger] pattern_at(
                views(locs@),
                views(ids@),
                k,
            ));
    }
    r
}

} // verus!
