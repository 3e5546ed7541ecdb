//! Resolving candidate archive paths.
//!
//! A caller canonicalizes each requested path on disk and hands the outcomes
//! over as [`Candidate`] values; this module decides, for each one, whether
//! it is kept: it must have resolved to an existing file and that file's
//! extension must be one of the accepted archive extensions.

use vstd::prelude::*;
use crate::paths::{extension_of, extension_spec};

verus! {

/// Whether `e` is an extension of an installable archive.
pub open spec fn accepted_extension(e: Option<Seq<char>>) -> bool {
    e == Some("gz"@) || e == Some("tgz"@) || e == Some("vsix"@)
}

/// One requested path together with the outcome of canonicalizing it:
/// `resolved` holds the canonical path when the file exists.
pub struct Candidate {
    pub original: String,
    pub resolved: Option<String>,
}

/// How one candidate fares.
#[derive(Clone, Copy, Debug, PartialEq, Eq)]
pub enum Verdict {
    /// Resolved to an existing file with an accepted extension; it is kept.
    Accepted,
    /// Resolved, but the extension is not an accepted one.
    InvalidExtension,
    /// Did not resolve to an existing file.
    NotResolved,
}

/// The view of an optional string.
pub open spec fn opt_view(e: Option<String>) -> Option<Seq<char>> {
    match e {
        Some(s) => Some(s@),
        None => None,
    }
}

/// The view of each string in a sequence.
pub open spec fn str_views() -> spec_fn(String) -> Seq<char> {
    |p: String| p@
}

/// What one candidate contributes to the output: its canonical path when it
/// resolved and carries an accepted extension, and nothing otherwise.
pub open spec fn resolution(c: Candidate) -> Option<Seq<char>> {
    match c.resolved {
        Some(p) => if accepted_extension(extension_spec(p@)) {
            Some(p@)
        } else {
            None
        },
        None => None,
    }
}

/// `resolution` as a value, for use with sequence operations.
pub open spec fn resolution_fn() -> spec_fn(Candidate) -> Option<Seq<char>> {
    |c: Candidate| resolution(c)
}

/// The verdict a candidate receives.
pub open spec fn spec_verdict(c: Candidate) -> Verdict {
    match c.resolved {
        Some(p) => if accepted_extension(extension_spec(p@)) {
            Verdict::Accepted
        } else {
            Verdict::InvalidExtension
        },
        None => Verdict::NotResolved,
    }
}

/// Whether `e` is an accepted archive extension.
pub fn is_accepted_extension(e: &Option<String>) -> (r: bool)
    ensures
        r == accepted_extension(opt_view(*e)),
{
    match e {
        Some(s) => {
            let gz = String::from_str("gz");
            let tgz = String::from_str("tgz");
            let vsix = String::from_str("vsix");
            *s == gz || *s == tgz || *s == vsix
        },
        None => false,
    }
}

/// Decides how a single candidate fares, for reporting.
pub fn classify(c: &Candidate) -> (v: Verdict)
    ensures
        v == spec_verdict(*c),
{
    match &c.resolved {
        Some(p) => {
            let e = extension_of(p.as_str());
            if is_accepted_extension(&e) {
                Verdict::Accepted
            } else {
                Verdict::InvalidExtension
            }
        },
        None => Verdict::NotResolved,
    }
}

/// Keeps, in input order, the canonical path of every candidate that
/// resolved to an existing file with an accepted extension.
pub fn resolve_paths(candidates: Vec<Candidate>) -> (out: Vec<String>)
    ensures
        out@.map_values(str_views()) == candidates@.filter_map(resolution_fn()),
{
    let n = candidates.len();
    let mut out: Vec<String> = Vec::new();
    let mut i: usize = 0;
    while i < n
        invariant
            i <= n,
            n == candidates@.len(),
            out@.map_values(str_views()) == candidates@.take(i as int).filter_map(resolution_fn()),
        decreases n - i,
    {
        proof {
            candidates@.lemma_filter_map_take_succ(resolution_fn(), i as int);
        }
        let ghost prev = out@.map_values(str_views());
        let c = &candidates[i];
        match &c.resolved {
            Some(p) => {
                let e = extension_of(p.as_str());
                if is_accepted_extension(&e) {
                    out.push(p.clone());
                    proof {
                        assert(out@.map_values(str_views()) =~= prev + seq![p@]);
                    }
                }
            },
            None => {},
        }
        i = i + 1;
    }
    proof {
        assert(candidates@.take(n as int) =~= candidates@);
    }
    out
}

/// Resolution works piecewise: the outputs for a run of candidates followed
/// by another run are the outputs of the first run, in order, followed by
/// those of the second. In particular the input order is preserved.
pub proof fn lemma_resolution_distributes(a: Seq<Candidate>, b: Seq<Candidate>)
    ensures
        (a + b).filter_map(resolution_fn()) == a.filter_map(resolution_fn())
            + b.filter_map(resolution_fn()),
    decreases b.len(),
{
    if b.len() == 0 {
        assert(a + b =~= a);
        assert(b.filter_map(resolution_fn()) =~= Seq::<Seq<char>>::empty());
        assert(a.filter_map(resolution_fn()) + Seq::<Seq<char>>::empty() =~= a.filter_map(
            resolution_fn(),
        ));
    } else {
        let b2 = b.drop_last();
        lemma_resolution_distributes(a, b2);
        assert((a + b).drop_last() =~= a + b2);
        assert((a + b).last() == b.last());
        match resolution_fn()(b.last()) {
            Some(v) => {
                assert(a.filter_map(resolution_fn()) + b.filter_map(resolution_fn())
                    =~= a.filter_map(resolution_fn()) + b2.filter_map(resolution_fn()) + seq![v]);
            },
            None => {},
        }
    }
}

/// Every path that resolution keeps carries an accepted extension: no output
/// of `resolve_paths` lies outside the accepted set.
pub proof fn lemma_outputs_accepted(s: Seq<Candidate>, i: int)
    requires
        0 <= i < s.filter_map(resolution_fn()).len(),
    ensures
        accepted_extension(extension_spec(s.filter_map(resolution_fn())[i])),
    decreases s.len(),
{
    if s.len() > 0 {
        let rest = s.drop_last();
        match resolution_fn()(s.last()) {
            Some(v) => {
                if i < rest.filter_map(resolution_fn()).len() {
                    lemma_outputs_accepted(rest, i);
                } else {
                    assert(s.filter_map(resolution_fn())[i] == v);
                }
            },
            None => {
                lemma_outputs_accepted(rest, i);
            },
        }
    }
}

/// Every output is some candidate's own canonical path: position `i` of
/// the output is what candidate `a` contributed, for some `a`.
pub proof fn lemma_output_has_source(s: Seq<Candidate>, i: int)
    requires
        0 <= i < s.filter_map(resolution_fn()).len(),
    ensures
        exists|a: int|
            0 <= a < s.len() && resolution(s[a]) == Some(s.filter_map(resolution_fn())[i]),
    decreases s.len(),
{
    if s.len() > 0 {
        let rest = s.drop_last();
        match resolution_fn()(s.last()) {
            Some(v) => {
                if i < rest.filter_map(resolution_fn()).len() {
                    lemma_output_has_source(rest, i);
                    let a = choose|a: int|
                        0 <= a < rest.len() && resolution(rest[a]) == Some(
                            rest.filter_map(resolution_fn())[i],
                        );
                    assert(resolution(s[a]) == Some(s.filter_map(resolution_fn())[i]));
                } else {
                    assert(resolution(s[s.len() - 1]) == Some(s.filter_map(resolution_fn())[i]));
                }
            },
            None => {
                lemma_output_has_source(rest, i);
                let a = choose|a: int|
                    0 <= a < rest.len() && resolution(rest[a]) == Some(
                        rest.filter_map(resolution_fn())[i],
                    );
                assert(resolution(s[a]) == Some(s.filter_map(resolution_fn())[i]));
            },
        }
    }
}

/// The input order is preserved: two outputs, in order, come from two
/// candidates in the same order.
pub proof fn lemma_order_preserved(s: Seq<Candidate>, i: int, j: int)
    requires
        0 <= i < j < s.filter_map(resolution_fn()).len(),
    ensures
        exists|a: int, b: int|
            0 <= a < b < s.len() && resolution(s[a]) == Some(s.filter_map(resolution_fn())[i])
                && resolution(s[b]) == Some(s.filter_map(resolution_fn())[j]),
    decreases s.len(),
{
    if s.len() > 0 {
        let rest = s.drop_last();
        match resolution_fn()(s.last()) {
            Some(v) => {
                if j < rest.filter_map(resolution_fn()).len() {
                    lemma_order_preserved(rest, i, j);
                    let (a, b) = choose|a: int, b: int|
                        0 <= a < b < rest.len() && resolution(rest[a]) == Some(
                            rest.filter_map(resolution_fn())[i],
                        ) && resolution(rest[b]) == Some(rest.filter_map(resolution_fn())[j]);
                    assert(resolution(s[a]) == Some(s.filter_map(resolution_fn())[i])
                        && resolution(s[b]) == Some(s.filter_map(resolution_fn())[j]));
                } else {
                    lemma_output_has_source(rest, i);
                    let a = choose|a: int|
                        0 <= a < rest.len() && resolution(rest[a]) == Some(
                            rest.filter_map(resolution_fn())[i],
                        );
                    let b = s.len() - 1;
                    assert(resolution(s[a]) == Some(s.filter_map(resolution_fn())[i])
                        && resolution(s[b]) == Some(s.filter_map(resolution_fn())[j]));
                }
            },
            None => {
                lemma_order_preserved(rest, i, j);
                let (a, b) = choose|a: int, b: int|
                    0 <= a < b < rest.len() && resolution(rest[a]) == Some(
                        rest.filter_map(resolution_fn())[i],
                    ) && resolution(rest[b]) == Some(rest.filter_map(resolution_fn())[j]);
                assert(resolution(s[a]) == Some(s.filter_map(resolution_fn())[i])
                    && resolution(s[b]) == Some(s.filter_map(resolution_fn())[j]));
            },
        }
    }
}

/// A candidate that did not resolve contributes no output, and the
/// candidates around it are processed exactly as they would be without it.
pub proof fn lemma_unresolved_skipped(a: Seq<Candidate>, c: Candidate, b: Seq<Candidate>)
    requires
        c.resolved is None,
    ensures
        (a + seq![c] + b).filter_map(resolution_fn()) == (a + b).filter_map(resolution_fn()),
{
    lemma_resolution_distributes(a + seq![c], b);
    lemma_resolution_distributes(a, seq![c]);
    lemma_resolution_distributes(a, b);
    Seq::<Candidate>::lemma_filter_map_singleton(c, resolution_fn());
    assert(seq![c].filter_map(resolution_fn()) =~= Seq::<Seq<char>>::empty());
    assert(a.filter_map(resolution_fn()) + Seq::<Seq<char>>::empty() + b.filter_map(
        resolution_fn(),
    ) =~= a.filter_map(resolution_fn()) + b.filter_map(resolution_fn()));
}

} // verus!
