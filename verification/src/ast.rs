//! The input model: a trait declaration as the transformation core consumes
//! it. Every node carries the plain values that the generators read; a span
//! is an opaque identifier of a position in the source, used only to tie a
//! diagnostic to the offending input.

use vstd::prelude::*;

verus! {

/// A (possibly fully qualified) path, `core::marker::Send`.
#[derive(Clone, Debug)]
pub struct Path {
    /// Whether the path starts with `::`.
    pub leading_colon: bool,
    /// The path segments, in order, without separators.
    pub segments: Vec<String>,
}

/// View-level equality of two paths: same qualification and the same
/// segment texts.
pub open spec fn path_eqv(a: Path, b: Path) -> bool {
    &&& a.leading_colon == b.leading_colon
    &&& a.segments@.len() == b.segments@.len()
    &&& forall|i: int| 0 <= i < a.segments@.len() ==> a.segments@[i]@ == #[trigger] b.segments@[i]@
}

/// Two paths hold the same segment values and the same qualification.
pub open spec fn path_same(a: Path, b: Path) -> bool {
    &&& a.leading_colon == b.leading_colon
    &&& a.segments@ == b.segments@
}

impl Path {
    /// The simple name: the text of the last segment.
    pub open spec fn spec_simple_name(self) -> Seq<char>
        recommends
            self.segments@.len() > 0,
    {
        self.segments@.last()@
    }

    /// Returns the last segment of the path.
    pub fn simple_name(&self) -> (r: &String)
        requires
            self.segments@.len() > 0,
        ensures
            *r == self.segments@.last(),
    {
        &self.segments[self.segments.len() - 1]
    }

    /// Returns the same path with the last segment replaced.
    pub fn with_simple_name(&self, name: String) -> (r: Path)
        requires
            self.segments@.len() > 0,
        ensures
            r.leading_colon == self.leading_colon,
            r.segments@ == self.segments@.update(self.segments@.len() - 1, name),
    {
        let mut segments = clone_strings(&self.segments);
        let last: usize = segments.len() - 1;
        segments.set(last, name);
        Path { leading_colon: self.leading_colon, segments }
    }

    /// Structural copy; the copy holds the same values as the original.
    pub fn duplicate(&self) -> (r: Path)
        ensures
            path_same(r, *self),
    {
        Path { leading_colon: self.leading_colon, segments: clone_strings(&self.segments) }
    }

    /// Decides view-level path equality.
    pub fn eqv(&self, other: &Path) -> (r: bool)
        ensures
            r == path_eqv(*self, *other),
    {
        if self.leading_colon != other.leading_colon {
            return false;
        }
        if self.segments.len() != other.segments.len() {
            return false;
        }
        let mut i: usize = 0;
        while i < self.segments.len()
            invariant
                0 <= i <= self.segments@.len(),
                self.segments@.len() == other.segments@.len(),
                forall|j: int| 0 <= j < i ==> self.segments@[j]@ == #[trigger] other.segments@[j]@,
            decreases self.segments@.len() - i,
        {
            if !self.segments[i].eq(&other.segments[i]) {
                return false;
            }
            i += 1;
        }
        true
    }
}

/// Decides whether a string's text equals a literal's text.
pub fn str_matches(s: &String, lit: &str) -> (r: bool)
    ensures
        r == (s@ == lit@),
{
    s.eq(&lit.to_owned())
}

/// Clones a vector of strings; the copy equals the original element-wise.
pub fn clone_strings(v: &Vec<String>) -> (r: Vec<String>)
    ensures
        r@ == v@,
{
    let mut r: Vec<String> = Vec::new();
    let mut i: usize = 0;
    while i < v.len()
        invariant
            0 <= i <= v@.len(),
            r@ == v@.subrange(0, i as int),
        decreases v@.len() - i,
    {
        r.push(v[i].clone());
        assert(r@ == v@.subrange(0, i + 1 as int));
        i += 1;
    }
    assert(v@.subrange(0, v@.len() as int) == v@);
    r
}

/// The visibility attached to a declaration, carried through unchanged.
#[derive(Clone, Debug)]
pub enum Visibility {
    /// No modifier.
    Inherited,
    /// `pub`.
    Public,
    /// `pub(...)` with the given restriction path.
    Restricted(Path),
}

/// Two visibilities hold the same values.
pub open spec fn vis_same(a: Visibility, b: Visibility) -> bool {
    match (a, b) {
        (Visibility::Inherited, Visibility::Inherited) => true,
        (Visibility::Public, Visibility::Public) => true,
        (Visibility::Restricted(p), Visibility::Restricted(q)) => path_same(p, q),
        _ => false,
    }
}

impl Visibility {
    /// Structural copy; the copy holds the same values as the original.
    pub fn duplicate(&self) -> (r: Visibility)
        ensures
            vis_same(r, *self),
    {
        match self {
            Visibility::Inherited => Visibility::Inherited,
            Visibility::Public => Visibility::Public,
            Visibility::Restricted(p) => Visibility::Restricted(p.duplicate()),
        }
    }
}

/// An attribute attached to an input or a generated item: its first path
/// segment (which is what validation reads) and the remaining tokens,
/// carried verbatim.
#[derive(Clone, Debug)]
pub struct AttrDecl {
    /// The first segment of the attribute path, `repr` in `#[repr(C)]`.
    pub head: String,
    /// Everything after the head, carried through as source text.
    pub rest: String,
    /// Where the attribute stands in the input.
    pub span: usize,
}

/// A type as the generators carry it: either source text carried through
/// verbatim, or the erased-receiver pointer type that the table slots use.
#[derive(Clone, Debug)]
pub enum TypeExpr {
    /// A type carried through unchanged from the input, as source text.
    Source(String),
    /// `*mut core::ffi::c_void`, the erased receiver.
    MutPtrCVoid,
}

impl TypeExpr {
    /// Structural copy; the copy equals the original.
    pub fn duplicate(&self) -> (r: TypeExpr)
        ensures
            r == *self,
    {
        match self {
            TypeExpr::Source(s) => TypeExpr::Source(s.clone()),
            TypeExpr::MutPtrCVoid => TypeExpr::MutPtrCVoid,
        }
    }
}

/// A method receiver: `&self`, `&mut self`, or by-value `self`.
#[derive(Clone, Copy, Debug)]
pub struct Receiver {
    /// Whether the receiver is taken by reference; a by-value receiver is
    /// rejected during normalization.
    pub reference: bool,
    /// Whether the reference is `&mut`.
    pub mutable: bool,
    /// Where the receiver stands in the input.
    pub span: usize,
}

/// One parameter of a method signature in the input.
#[derive(Clone, Debug)]
pub enum FnArg {
    /// The receiver parameter.
    Receiver(Receiver),
    /// A typed parameter with an optional binding name.
    Typed {
        /// The binding name, when the pattern is a plain identifier.
        name: Option<String>,
        /// The parameter type.
        ty: TypeExpr,
    },
}

/// One generic parameter of a method, with the span used when it must be
/// rejected.
#[derive(Clone, Debug)]
pub struct GenericParam {
    /// Which kind of parameter this is.
    pub kind: GenericParamKind,
    /// Where the parameter stands in the input.
    pub span: usize,
}

/// The kind of a generic parameter.
#[derive(Clone, Debug)]
pub enum GenericParamKind {
    /// A lifetime parameter, the only kind an object-safe method may have.
    Lifetime(String),
    /// A type parameter; not object-safe.
    TypeParam,
    /// A const parameter; not object-safe.
    ConstParam,
}

/// A method signature of the source interface.
#[derive(Clone, Debug)]
pub struct MethodSig {
    /// `Some(span)` when the method is declared `async`.
    pub asyncness: Option<usize>,
    /// Whether the method is declared `unsafe`.
    pub unsafety: bool,
    /// The declared calling convention, the `"C"` of `extern "C"`.
    pub abi: Option<String>,
    /// The method name.
    pub name: String,
    /// The generic parameters, in declaration order.
    pub generics: Vec<GenericParam>,
    /// `Some(span)` when the method has a `where`-clause.
    pub where_clause: Option<usize>,
    /// The parameters, in declaration order.
    pub inputs: Vec<FnArg>,
    /// Whether the signature ends in `...`.
    pub variadic: bool,
    /// The return type; `None` is the default unit return.
    pub output: Option<TypeExpr>,
    /// Where the signature stands in the input.
    pub span: usize,
}

/// One item of the source interface.
#[derive(Clone, Debug)]
pub enum TraitItemDecl {
    /// A method.
    Method(MethodSig),
    /// An associated constant; rejected.
    AssocConst {
        /// Where the item stands in the input.
        span: usize,
    },
    /// An associated type; rejected.
    AssocType {
        /// Where the item stands in the input.
        span: usize,
    },
    /// An unexpanded macro invocation; rejected.
    MacroInvocation {
        /// Where the item stands in the input.
        span: usize,
    },
    /// Any other item kind; rejected.
    Other {
        /// Where the item stands in the input.
        span: usize,
    },
}

/// One declared supertype bound of the interface.
#[derive(Clone, Debug)]
pub enum TypeParamBound {
    /// A trait bound with its path.
    TraitBound {
        /// The bound's path.
        path: Path,
        /// Where the bound stands in the input.
        span: usize,
    },
    /// A lifetime bound, `'static` for instance, without the apostrophe.
    LifetimeBound {
        /// The lifetime name.
        name: String,
        /// Where the bound stands in the input.
        span: usize,
    },
}

/// The source interface declaration, as handed in by the front-end.
#[derive(Clone, Debug)]
pub struct TraitDecl {
    /// The interface name.
    pub name: String,
    /// The declared visibility.
    pub vis: Visibility,
    /// The interface's own generic parameters; any entry is rejected.
    pub generics: Vec<GenericParam>,
    /// The declared supertype bounds, in order.
    pub supertraits: Vec<TypeParamBound>,
    /// The interface items, in order.
    pub items: Vec<TraitItemDecl>,
    /// Where the declaration stands in the input.
    pub span: usize,
}

/// Whether any declared lifetime bound is `'static`.
pub open spec fn spec_has_static_bound(bounds: Seq<TypeParamBound>) -> bool {
    exists|i: int|
        0 <= i < bounds.len() && ((#[trigger] bounds[i]) matches TypeParamBound::LifetimeBound {
            name,
            ..
        } && name@ == "static"@)
}

/// Decides whether one of the declared bounds is the `'static` lifetime.
pub fn has_static_bound(bounds: &Vec<TypeParamBound>) -> (r: bool)
    ensures
        r == spec_has_static_bound(bounds@),
{
    let mut i: usize = 0;
    while i < bounds.len()
        invariant
            0 <= i <= bounds@.len(),
            !exists|j: int|
                0 <= j < i && ((#[trigger] bounds@[j]) matches TypeParamBound::LifetimeBound {
                    name,
                    ..
                } && name@ == "static"@),
        decreases bounds@.len() - i,
    {
        match &bounds[i] {
            TypeParamBound::LifetimeBound { name, .. } => {
                if str_matches(name, "static") {
                    assert(spec_has_static_bound(bounds@));
                    return true;
                }
            },
            _ => {},
        }
        i += 1;
    }
    false
}

} // verus!
