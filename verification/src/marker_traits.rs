//! Capability markers: splitting an interface's declared supertype bounds
//! into marker capabilities (re-implemented as empty behavior tags on the
//! handle) and lifetime constraints, by a default table of well-known
//! capability names or by an explicit override list.

use vstd::prelude::*;

use crate::ast::{path_eqv, Path, TypeParamBound};
use crate::trait_object::TraitObjectName;

verus! {

/// One capability marker: a trait path and whether implementing it takes an
/// `unsafe impl`.
#[derive(Clone, Debug)]
pub struct MarkerTrait {
    /// Whether the marker implementation is `unsafe`.
    pub unsafety: bool,
    /// The marker trait's path.
    pub path: Path,
}

/// An empty marker implementation emitted on the handle type.
#[derive(Clone, Debug)]
pub struct MarkerImplDecl {
    /// Whether the implementation is `unsafe impl`.
    pub unsafety: bool,
    /// The marker trait being implemented.
    pub trait_path: Path,
    /// The handle type the implementation is attached to.
    pub implementor: TraitObjectName,
}

impl MarkerTrait {
    /// Describes the empty (possibly unsafe) implementation of this marker
    /// for the given handle type.
    pub fn as_impl_for(&self, implementor: &TraitObjectName) -> (r: MarkerImplDecl)
        ensures
            r.unsafety == self.unsafety,
            crate::ast::path_same(r.trait_path, self.path),
            r.implementor == *implementor,
    {
        MarkerImplDecl {
            unsafety: self.unsafety,
            trait_path: self.path.duplicate(),
            implementor: implementor.duplicate(),
        }
    }
}

/// Whether a path is the single unqualified segment `a`.
pub open spec fn path_is1(p: Path, a: Seq<char>) -> bool {
    &&& !p.leading_colon
    &&& p.segments@.len() == 1
    &&& p.segments@[0]@ == a
}

/// Whether a path is the fully qualified `::a::b::c`.
pub open spec fn path_is3(p: Path, a: Seq<char>, b: Seq<char>, c: Seq<char>) -> bool {
    &&& p.leading_colon
    &&& p.segments@.len() == 3
    &&& p.segments@[0]@ == a
    &&& p.segments@[1]@ == b
    &&& p.segments@[2]@ == c
}

/// The verdict of the default capability table on a bound's path: `Some`
/// with the marker's unsafety when the path names a well-known capability by
/// short name or fully qualified path, `None` otherwise.
pub open spec fn default_marker_verdict(p: Path) -> Option<bool> {
    if path_is1(p, "Send"@) || path_is3(p, "core"@, "marker"@, "Send"@) {
        Some(true)
    } else if path_is1(p, "Sync"@) || path_is3(p, "core"@, "marker"@, "Sync"@) {
        Some(true)
    } else if path_is1(p, "Unpin"@) || path_is3(p, "core"@, "marker"@, "Unpin"@) {
        Some(false)
    } else if path_is1(p, "UnwindSafe"@) || path_is3(p, "std"@, "panic"@, "UnwindSafe"@) {
        Some(false)
    } else if path_is1(p, "RefUnwindSafe"@) || path_is3(p, "std"@, "panic"@, "RefUnwindSafe"@) {
        Some(false)
    } else {
        None
    }
}

/// Decides whether a path names exactly the single unqualified segment `a`.
fn path_matches1(p: &Path, a: &str) -> (r: bool)
    ensures
        r == path_is1(*p, a@),
{
    if p.leading_colon || p.segments.len() != 1 {
        return false;
    }
    crate::ast::str_matches(&p.segments[0], a)
}

/// Decides whether a path names exactly the fully qualified `::a::b::c`.
fn path_matches3(p: &Path, a: &str, b: &str, c: &str) -> (r: bool)
    ensures
        r == path_is3(*p, a@, b@, c@),
{
    if !p.leading_colon || p.segments.len() != 3 {
        return false;
    }
    crate::ast::str_matches(&p.segments[0], a) && crate::ast::str_matches(&p.segments[1], b)
        && crate::ast::str_matches(&p.segments[2], c)
}

/// The default capability predicate: thread transferability (`Send`),
/// concurrent shared access (`Sync`), pointer immovability (`Unpin`), and
/// the two panic-safety tags, each recognized by short name or fully
/// qualified path, the first two as `unsafe` markers.
pub fn default_marker_filter(p: &Path) -> (r: Option<bool>)
    ensures
        r == default_marker_verdict(*p),
{
    if path_matches1(p, "Send") || path_matches3(p, "core", "marker", "Send") {
        Some(true)
    } else if path_matches1(p, "Sync") || path_matches3(p, "core", "marker", "Sync") {
        Some(true)
    } else if path_matches1(p, "Unpin") || path_matches3(p, "core", "marker", "Unpin") {
        Some(false)
    } else if path_matches1(p, "UnwindSafe") || path_matches3(p, "std", "panic", "UnwindSafe") {
        Some(false)
    } else if path_matches1(p, "RefUnwindSafe") || path_matches3(
        p,
        "std",
        "panic",
        "RefUnwindSafe",
    ) {
        Some(false)
    } else {
        None
    }
}

/// Which predicate decides marker membership: the default capability table,
/// or an explicit override list that replaces it entirely.
#[derive(Clone, Debug)]
pub enum MarkerFilter {
    /// The default table of well-known capabilities.
    DefaultTable,
    /// Only the listed paths are markers, with the listed unsafety.
    Explicit(Vec<MarkerTrait>),
}

/// The verdict of an explicit override list on a bound's path: the unsafety
/// of the first entry whose path matches, `None` when none matches.
pub open spec fn explicit_verdict(list: Seq<MarkerTrait>, p: Path) -> Option<bool>
    decreases list.len(),
{
    if list.len() == 0 {
        None
    } else if path_eqv(list[0].path, p) {
        Some(list[0].unsafety)
    } else {
        explicit_verdict(list.drop_first(), p)
    }
}

/// The verdict of a marker filter on a bound's path.
pub open spec fn filter_verdict(f: MarkerFilter, p: Path) -> Option<bool> {
    match f {
        MarkerFilter::DefaultTable => default_marker_verdict(p),
        MarkerFilter::Explicit(list) => explicit_verdict(list@, p),
    }
}

/// Applies a marker filter to a bound's path.
#[verifier::loop_isolation(false)]
pub fn apply_filter(f: &MarkerFilter, p: &Path) -> (r: Option<bool>)
    ensures
        r == filter_verdict(*f, *p),
{
    match f {
        MarkerFilter::DefaultTable => default_marker_filter(p),
        MarkerFilter::Explicit(list) => {
            proof {
                assert(list@.subrange(0, list@.len() as int) =~= list@);
            }
            let mut i: usize = 0;
            while i < list.len()
                invariant
                    0 <= i <= list@.len(),
                    explicit_verdict(list@, *p) == explicit_verdict(
                        list@.subrange(i as int, list@.len() as int),
                        *p,
                    ),
                decreases list@.len() - i,
            {
                proof {
                    assert(list@.subrange(i as int, list@.len() as int)[0] == list@[i as int]);
                    assert(list@.subrange(i as int, list@.len() as int).drop_first() =~= list@
                        .subrange(i + 1 as int, list@.len() as int));
                }
                if list[i].path.eqv(p) {
                    proof {
                        assert(explicit_verdict(list@.subrange(i as int, list@.len() as int), *p)
                            == Some(list@[i as int].unsafety));
                    }
                    return Some(list[i].unsafety);
                }
                i += 1;
            }
            None
        },
    }
}

/// The markers that splitting a bound list produces: one per trait bound
/// the filter accepts, in source order, carrying the bound's path and the
/// filter's unsafety verdict.
pub open spec fn spec_markers(bounds: Seq<TypeParamBound>, f: MarkerFilter) -> Seq<MarkerTrait>
    decreases bounds.len(),
{
    if bounds.len() == 0 {
        Seq::empty()
    } else {
        let rest = spec_markers(bounds.drop_last(), f);
        match bounds.last() {
            TypeParamBound::TraitBound { path, .. } => match filter_verdict(f, path) {
                Some(u) => rest.push(MarkerTrait { unsafety: u, path }),
                None => rest,
            },
            TypeParamBound::LifetimeBound { .. } => rest,
        }
    }
}

/// The lifetime constraints that splitting a bound list produces, in source
/// order.
pub open spec fn spec_lifetimes(bounds: Seq<TypeParamBound>) -> Seq<String>
    decreases bounds.len(),
{
    if bounds.len() == 0 {
        Seq::empty()
    } else {
        let rest = spec_lifetimes(bounds.drop_last());
        match bounds.last() {
            TypeParamBound::LifetimeBound { name, .. } => rest.push(name),
            TypeParamBound::TraitBound { .. } => rest,
        }
    }
}

/// Splits the declared supertype bounds into the ordered capability-marker
/// list and the ordered lifetime-constraint list, preserving source order
/// within each; trait bounds the filter does not accept are dropped.
pub fn supertraits_to_markers_and_lifetimes(supertraits: Vec<TypeParamBound>, filter: &MarkerFilter)
    -> (r: (Vec<MarkerTrait>, Vec<String>))
    ensures
        r.0@ == spec_markers(supertraits@, *filter),
        r.1@ == spec_lifetimes(supertraits@),
{
    let ghost orig = supertraits@;
    let mut rest = supertraits;
    let mut markers: Vec<MarkerTrait> = Vec::new();
    let mut lifetimes: Vec<String> = Vec::new();
    let ghost k: int = 0;
    while rest.len() > 0
        invariant
            0 <= k <= orig.len(),
            rest@ =~= orig.subrange(k, orig.len() as int),
            markers@ == spec_markers(orig.subrange(0, k), *filter),
            lifetimes@ == spec_lifetimes(orig.subrange(0, k)),
        decreases rest@.len(),
    {
        let bound = rest.remove(0);
        proof {
            assert(bound == orig[k]);
            assert(orig.subrange(0, k + 1).drop_last() =~= orig.subrange(0, k));
            assert(orig.subrange(0, k + 1).last() == orig[k]);
        }
        match bound {
            TypeParamBound::TraitBound { path, span: _ } => {
                match apply_filter(filter, &path) {
                    Some(u) => {
                        markers.push(MarkerTrait { unsafety: u, path });
                    },
                    None => {},
                }
            },
            TypeParamBound::LifetimeBound { name, span: _ } => {
                lifetimes.push(name);
            },
        }
        proof {
            k = k + 1;
            assert(rest@ =~= orig.subrange(k, orig.len() as int));
        }
    }
    proof {
        assert(orig.subrange(0, orig.len() as int) =~= orig);
    }
    (markers, lifetimes)
}

/// No declared capability bound, no marker: when the filter accepts none of
/// the bounds (in particular when there is no trait bound at all), the
/// marker list is empty; and when it accepts some bound, the marker list is
/// not empty.
pub proof fn lemma_marker_emission(bounds: Seq<TypeParamBound>, f: MarkerFilter)
    ensures
        (forall|i: int|
            0 <= i < bounds.len() ==> ((#[trigger] bounds[i]) matches TypeParamBound::TraitBound {
                path,
                ..
            } ==> filter_verdict(f, path) is None)) ==> spec_markers(bounds, f) =~= Seq::empty(),
        (exists|i: int|
            0 <= i < bounds.len() && ((#[trigger] bounds[i]) matches TypeParamBound::TraitBound {
                path,
                ..
            } && filter_verdict(f, path) is Some)) ==> spec_markers(bounds, f).len() > 0,
    decreases bounds.len(),
{
    if bounds.len() > 0 {
        lemma_marker_emission(bounds.drop_last(), f);
        assert(forall|i: int|
            0 <= i < bounds.len() - 1 ==> bounds.drop_last()[i] == #[trigger] bounds[i]);
        if exists|i: int|
            0 <= i < bounds.len() && ((#[trigger] bounds[i]) matches TypeParamBound::TraitBound {
                path,
                ..
            } && filter_verdict(f, path) is Some) {
            let i = choose|i: int|
                0 <= i < bounds.len() && ((#[trigger] bounds[i])
                    matches TypeParamBound::TraitBound { path, .. } && filter_verdict(
                    f,
                    path,
                ) is Some);
            if i < bounds.len() - 1 {
                assert(bounds.drop_last()[i] == bounds[i]);
            }
        }
    }
}

/// Exactly one marker comes out of exactly one recognized capability bound:
/// splitting a single trait bound that the filter accepts yields one marker
/// carrying that bound's path and the filter's unsafety verdict, and no
/// lifetime constraint.
pub proof fn lemma_single_marker(bounds: Seq<TypeParamBound>, f: MarkerFilter, p: Path, u: bool)
    requires
        bounds.len() == 1,
        bounds[0] matches TypeParamBound::TraitBound { path, .. } && path == p,
        filter_verdict(f, p) == Some(u),
    ensures
        spec_markers(bounds, f) =~= seq![(MarkerTrait { unsafety: u, path: p })],
        spec_lifetimes(bounds) =~= Seq::<String>::empty(),
{
    let rest = bounds.drop_last();
    assert(rest =~= Seq::<TypeParamBound>::empty());
    assert(spec_markers(rest, f) =~= Seq::<MarkerTrait>::empty());
    assert(spec_lifetimes(rest) =~= Seq::<String>::empty());
    assert(bounds.last() == bounds[0]);
}

} // verus!
