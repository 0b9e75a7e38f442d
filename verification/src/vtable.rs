//! Canonical method descriptors and the dispatch-table schema.
//!
//! The normalizer turns each interface item into a [`VtableItem`] or rejects
//! it; the table generator derives the fixed-layout table schema: one
//! function-pointer slot per method, an optional embedded super-table field,
//! optional layout metadata, and a destructor slot at the root of an
//! extension chain only.

use vstd::prelude::*;

use crate::ast::{
    clone_strings, str_matches, AttrDecl, FnArg, GenericParam, GenericParamKind, MethodSig,
    Path, Receiver, TraitItemDecl, TypeExpr, Visibility,
};
use crate::attr::StageStash;
use crate::error::{Diagnostic, ErrorKind};
use crate::inheritance::{renamed_last, super_vtable_type};
use crate::names::{decimal_of, numbered_arg_name, vtable_name_of};

verus! {

/// A parameter of a bare function-pointer type: an optional name and a type.
#[derive(Clone, Debug)]
pub struct BareFnArg {
    /// The parameter name, when one is carried.
    pub name: Option<String>,
    /// The parameter type.
    pub ty: TypeExpr,
}

/// A parameter of a table slot's function-pointer type: either still the
/// receiver, or an ordinary bare parameter.
#[derive(Clone, Debug)]
pub enum VtableFnArg {
    /// An ordinary parameter.
    Normal(BareFnArg),
    /// The method receiver, not yet erased.
    Receiver(Receiver),
}

/// The bare parameter an argument becomes once the receiver is erased to an
/// untyped pointer.
pub open spec fn spec_bare_of(a: VtableFnArg) -> BareFnArg {
    match a {
        VtableFnArg::Normal(b) => b,
        VtableFnArg::Receiver(_) => BareFnArg { name: None, ty: TypeExpr::MutPtrCVoid },
    }
}

impl VtableFnArg {
    /// Erases a receiver to an untyped mutable pointer parameter; an
    /// ordinary parameter is returned unchanged.
    pub fn into_bare_arg_with_ptr_receiver(self) -> (r: BareFnArg)
        ensures
            r == spec_bare_of(self),
    {
        match self {
            VtableFnArg::Normal(arg) => arg,
            VtableFnArg::Receiver(_) => BareFnArg { name: None, ty: TypeExpr::MutPtrCVoid },
        }
    }

    /// Structural copy; the copy equals the original.
    pub fn duplicate(&self) -> (r: VtableFnArg)
        ensures
            r == *self,
    {
        match self {
            VtableFnArg::Normal(arg) => VtableFnArg::Normal(
                BareFnArg { name: clone_opt_string(&arg.name), ty: arg.ty.duplicate() },
            ),
            VtableFnArg::Receiver(rec) => VtableFnArg::Receiver(*rec),
        }
    }
}

/// Clones an optional string; the copy equals the original.
pub fn clone_opt_string(o: &Option<String>) -> (r: Option<String>)
    ensures
        r == *o,
{
    match o {
        Some(s) => Some(s.clone()),
        None => None,
    }
}

/// Clones an optional type; the copy equals the original.
pub fn clone_opt_type(o: &Option<TypeExpr>) -> (r: Option<TypeExpr>)
    ensures
        r == *o,
{
    match o {
        Some(t) => Some(t.duplicate()),
        None => None,
    }
}

/// A canonical method descriptor: one per interface method, created once by
/// the normalizer and reused by every generator.
#[derive(Clone, Debug)]
pub struct VtableItem {
    /// The method's lifetime parameters, the only generics it may have.
    pub lifetimes: Vec<String>,
    /// Whether the method (or its promoted slot type) is `unsafe`.
    pub unsafety: bool,
    /// The declared calling convention.
    pub abi: Option<String>,
    /// The method name.
    pub name: String,
    /// The parameters, receiver first.
    pub inputs: Vec<VtableFnArg>,
    /// Whether the signature ends in `...`.
    pub variadic: bool,
    /// The return type; `None` is the default unit return.
    pub output: Option<TypeExpr>,
}

/// Whether an input argument is acceptable: a receiver must be taken by
/// reference.
pub open spec fn arg_accepted(a: FnArg) -> bool {
    match a {
        FnArg::Receiver(r) => r.reference,
        FnArg::Typed { .. } => true,
    }
}

/// The descriptor argument an accepted input argument becomes.
pub open spec fn spec_vtable_arg(a: FnArg) -> VtableFnArg {
    match a {
        FnArg::Receiver(r) => VtableFnArg::Receiver(r),
        FnArg::Typed { name, ty } => VtableFnArg::Normal(BareFnArg { name, ty }),
    }
}

/// The span a rejected argument's diagnostic points at.
pub open spec fn spec_arg_span(a: FnArg) -> usize {
    match a {
        FnArg::Receiver(r) => r.span,
        FnArg::Typed { .. } => 0,
    }
}

/// Index of the first rejected argument, if any.
pub open spec fn find_bad_arg(inputs: Seq<FnArg>, i: int) -> Option<int>
    decreases inputs.len() - i,
{
    if i < 0 || i >= inputs.len() {
        None
    } else if !arg_accepted(inputs[i]) {
        Some(i)
    } else {
        find_bad_arg(inputs, i + 1)
    }
}

/// Index of the first non-lifetime generic parameter, if any.
pub open spec fn find_bad_generic(params: Seq<GenericParam>, i: int) -> Option<int>
    decreases params.len() - i,
{
    if i < 0 || i >= params.len() {
        None
    } else if !(params[i].kind is Lifetime) {
        Some(i)
    } else {
        find_bad_generic(params, i + 1)
    }
}

/// The names of the lifetime parameters, in order.
pub open spec fn lifetime_names(params: Seq<GenericParam>) -> Seq<String>
    decreases params.len(),
{
    if params.len() == 0 {
        Seq::empty()
    } else {
        let rest = lifetime_names(params.drop_last());
        match params.last().kind {
            GenericParamKind::Lifetime(n) => rest.push(n),
            _ => rest,
        }
    }
}

/// Whether a signature has a receiver in first position, the only position
/// the source language allows one.
pub open spec fn has_receiver_first(sig: MethodSig) -> bool {
    sig.inputs@.len() > 0 && sig.inputs@[0] is Receiver
}

/// The diagnostic a method signature is rejected with, if any: missing
/// receiver, then asynchrony, then a `where`-clause, then a non-lifetime
/// generic parameter, then a by-value receiver.
pub open spec fn method_diag(sig: MethodSig) -> Option<Diagnostic> {
    if !has_receiver_first(sig) {
        Some(Diagnostic { kind: ErrorKind::MissingReceiver, span: sig.span })
    } else if sig.asyncness is Some {
        Some(Diagnostic { kind: ErrorKind::AsyncUnsupported, span: sig.asyncness->0 })
    } else if sig.where_clause is Some {
        Some(Diagnostic { kind: ErrorKind::GenericsUnsupported, span: sig.where_clause->0 })
    } else if find_bad_generic(sig.generics@, 0) is Some {
        Some(
            Diagnostic {
                kind: ErrorKind::GenericsUnsupported,
                span: sig.generics@[find_bad_generic(sig.generics@, 0)->0].span,
            },
        )
    } else if find_bad_arg(sig.inputs@, 0) is Some {
        Some(
            Diagnostic {
                kind: ErrorKind::MissingReceiver,
                span: spec_arg_span(sig.inputs@[find_bad_arg(sig.inputs@, 0)->0]),
            },
        )
    } else {
        None
    }
}

/// Whether a descriptor is exactly the normalization of a method signature.
pub open spec fn item_normalizes(v: VtableItem, sig: MethodSig) -> bool {
    &&& v.lifetimes@ == lifetime_names(sig.generics@)
    &&& v.unsafety == sig.unsafety
    &&& v.abi == sig.abi
    &&& v.name == sig.name
    &&& v.inputs@ == sig.inputs@.map_values(|a: FnArg| spec_vtable_arg(a))
    &&& v.variadic == sig.variadic
    &&& v.output == sig.output
}

impl VtableItem {
    /// Normalizes one method signature into a descriptor, or rejects it.
    #[verifier::loop_isolation(false)]
    pub fn from_method(sig: &MethodSig) -> (r: Result<VtableItem, Diagnostic>)
        ensures
            match r {
                Ok(v) => method_diag(*sig) is None && item_normalizes(v, *sig),
                Err(d) => method_diag(*sig) == Some(d),
            },
    {
        let has_rec = if sig.inputs.len() == 0 {
            false
        } else {
            match &sig.inputs[0] {
                FnArg::Receiver(_) => true,
                _ => false,
            }
        };
        if !has_rec {
            return Err(Diagnostic { kind: ErrorKind::MissingReceiver, span: sig.span });
        }
        if let Some(s) = sig.asyncness {
            return Err(Diagnostic { kind: ErrorKind::AsyncUnsupported, span: s });
        }
        if let Some(s) = sig.where_clause {
            return Err(Diagnostic { kind: ErrorKind::GenericsUnsupported, span: s });
        }
        let mut lifetimes: Vec<String> = Vec::new();
        let mut i: usize = 0;
        while i < sig.generics.len()
            invariant
                0 <= i <= sig.generics@.len(),
                find_bad_generic(sig.generics@, 0) == find_bad_generic(sig.generics@, i as int),
                lifetimes@ == lifetime_names(sig.generics@.subrange(0, i as int)),
            decreases sig.generics@.len() - i,
        {
            match &sig.generics[i].kind {
                GenericParamKind::Lifetime(n) => {
                    lifetimes.push(n.clone());
                    proof {
                        lemma_find_bad_generic_step(sig.generics@, i as int);
                    }
                },
                _ => {
                    proof {
                        assert(find_bad_generic(sig.generics@, i as int) == Some(i as int));
                    }
                    return Err(
                        Diagnostic {
                            kind: ErrorKind::GenericsUnsupported,
                            span: sig.generics[i].span,
                        },
                    );
                },
            }
            proof {
                assert(sig.generics@.subrange(0, i + 1 as int).drop_last() =~= sig.generics@
                    .subrange(0, i as int));
                assert(sig.generics@.subrange(0, i + 1 as int).last() == sig.generics@[i as int]);
            }
            i += 1;
        }
        proof {
            assert(sig.generics@.subrange(0, sig.generics@.len() as int) =~= sig.generics@);
        }
        let mut inputs: Vec<VtableFnArg> = Vec::new();
        let mut j: usize = 0;
        while j < sig.inputs.len()
            invariant
                0 <= j <= sig.inputs@.len(),
                find_bad_arg(sig.inputs@, 0) == find_bad_arg(sig.inputs@, j as int),
                inputs@ == sig.inputs@.subrange(0, j as int).map_values(
                    |a: FnArg| spec_vtable_arg(a),
                ),
            decreases sig.inputs@.len() - j,
        {
            match &sig.inputs[j] {
                FnArg::Receiver(rec) => {
                    if !rec.reference {
                        proof {
                            assert(find_bad_arg(sig.inputs@, j as int) == Some(j as int));
                        }
                        return Err(
                            Diagnostic { kind: ErrorKind::MissingReceiver, span: rec.span },
                        );
                    }
                    inputs.push(VtableFnArg::Receiver(*rec));
                },
                FnArg::Typed { name, ty } => {
                    inputs.push(
                        VtableFnArg::Normal(
                            BareFnArg { name: clone_opt_string(name), ty: ty.duplicate() },
                        ),
                    );
                },
            }
            proof {
                lemma_find_bad_arg_step(sig.inputs@, j as int);
            }
            proof {
                assert(inputs@ =~= sig.inputs@.subrange(0, j + 1 as int).map_values(
                    |a: FnArg| spec_vtable_arg(a),
                ));
            }
            j += 1;
        }
        proof {
            assert(sig.inputs@.subrange(0, sig.inputs@.len() as int) =~= sig.inputs@);
        }
        Ok(
            VtableItem {
                lifetimes,
                unsafety: sig.unsafety,
                abi: clone_opt_string(&sig.abi),
                name: sig.name.clone(),
                inputs,
                variadic: sig.variadic,
                output: clone_opt_type(&sig.output),
            },
        )
    }

    /// Promotes the descriptor to `unsafe`; every other part is unchanged.
    pub fn make_unsafe(&mut self)
        ensures
            final(self).unsafety,
            final(self).lifetimes == old(self).lifetimes,
            final(self).abi == old(self).abi,
            final(self).name == old(self).name,
            final(self).inputs == old(self).inputs,
            final(self).variadic == old(self).variadic,
            final(self).output == old(self).output,
    {
        self.unsafety = true;
    }

    /// Erases the receiver to an untyped pointer parameter in place; returns
    /// whether a receiver was present. Every other part is unchanged.
    pub fn make_raw(&mut self) -> (replaced: bool)
        ensures
            final(self).inputs@ == old(self).inputs@.map_values(
                |a: VtableFnArg| VtableFnArg::Normal(spec_bare_of(a)),
            ),
            replaced == exists|i: int|
                0 <= i < old(self).inputs@.len() && old(self).inputs@[i] is Receiver,
            final(self).lifetimes == old(self).lifetimes,
            final(self).unsafety == old(self).unsafety,
            final(self).abi == old(self).abi,
            final(self).name == old(self).name,
            final(self).variadic == old(self).variadic,
            final(self).output == old(self).output,
    {
        let ghost orig = self.inputs@;
        let mut replaced = false;
        let mut converted: Vec<VtableFnArg> = Vec::new();
        let mut i: usize = 0;
        while i < self.inputs.len()
            invariant
                0 <= i <= self.inputs@.len(),
                self.inputs@ == orig,
                converted@ == orig.subrange(0, i as int).map_values(
                    |a: VtableFnArg| VtableFnArg::Normal(spec_bare_of(a)),
                ),
                replaced == exists|j: int| 0 <= j < i && orig[j] is Receiver,
            decreases self.inputs@.len() - i,
        {
            match &self.inputs[i] {
                VtableFnArg::Receiver(_) => {
                    replaced = true;
                    converted.push(
                        VtableFnArg::Normal(BareFnArg { name: None, ty: TypeExpr::MutPtrCVoid }),
                    );
                },
                VtableFnArg::Normal(arg) => {
                    converted.push(
                        VtableFnArg::Normal(
                            BareFnArg { name: clone_opt_string(&arg.name), ty: arg.ty.duplicate() },
                        ),
                    );
                },
            }
            proof {
                assert(converted@ =~= orig.subrange(0, i + 1 as int).map_values(
                    |a: VtableFnArg| VtableFnArg::Normal(spec_bare_of(a)),
                ));
            }
            i += 1;
        }
        proof {
            assert(orig.subrange(0, orig.len() as int) =~= orig);
        }
        self.inputs = converted;
        replaced
    }

    /// Structural copy; the copy holds the same values as the original.
    pub fn duplicate(&self) -> (r: VtableItem)
        ensures
            r.lifetimes@ == self.lifetimes@,
            r.unsafety == self.unsafety,
            r.abi == self.abi,
            r.name == self.name,
            r.inputs@ == self.inputs@,
            r.variadic == self.variadic,
            r.output == self.output,
    {
        let mut inputs: Vec<VtableFnArg> = Vec::new();
        let mut i: usize = 0;
        while i < self.inputs.len()
            invariant
                0 <= i <= self.inputs@.len(),
                inputs@ == self.inputs@.subrange(0, i as int),
            decreases self.inputs@.len() - i,
        {
            inputs.push(self.inputs[i].duplicate());
            assert(inputs@ =~= self.inputs@.subrange(0, i + 1 as int));
            i += 1;
        }
        proof {
            assert(self.inputs@.subrange(0, self.inputs@.len() as int) =~= self.inputs@);
        }
        VtableItem {
            lifetimes: clone_strings(&self.lifetimes),
            unsafety: self.unsafety,
            abi: clone_opt_string(&self.abi),
            name: self.name.clone(),
            inputs,
            variadic: self.variadic,
            output: clone_opt_type(&self.output),
        }
    }
}

proof fn lemma_unnamed_before_le(inputs: Seq<VtableFnArg>, n: int)
    ensures
        n >= 0 ==> unnamed_before(inputs, n) <= n,
    decreases n,
{
    if n > 0 {
        lemma_unnamed_before_le(inputs, n - 1);
    }
}

proof fn lemma_find_bad_generic_step(params: Seq<GenericParam>, i: int)
    requires
        0 <= i < params.len(),
        params[i].kind is Lifetime,
    ensures
        find_bad_generic(params, i) == find_bad_generic(params, i + 1),
{
}

proof fn lemma_find_bad_arg_step(inputs: Seq<FnArg>, i: int)
    requires
        0 <= i < inputs.len(),
        arg_accepted(inputs[i]),
    ensures
        find_bad_arg(inputs, i) == find_bad_arg(inputs, i + 1),
{
}

/// A bare function-pointer type: the type of one table slot.
#[derive(Clone, Debug)]
pub struct FnPointerType {
    /// Bound lifetimes of the pointer type.
    pub lifetimes: Vec<String>,
    /// Whether the pointer type is `unsafe`; always promoted for a slot.
    pub unsafety: bool,
    /// The calling convention.
    pub abi: Option<String>,
    /// The parameters, in order.
    pub params: Vec<VtableFnArg>,
    /// Whether the type ends in `...`.
    pub variadic: bool,
    /// The return type; `None` is the default unit return.
    pub output: Option<TypeExpr>,
}

/// A full method signature as the generated code declares it, with every
/// parameter carrying a binding name.
#[derive(Clone, Debug)]
pub struct Signature {
    /// Whether the function is `unsafe`.
    pub unsafety: bool,
    /// The calling convention.
    pub abi: Option<String>,
    /// The function name.
    pub name: String,
    /// The lifetime parameters.
    pub lifetimes: Vec<String>,
    /// The parameters, each named.
    pub inputs: Vec<SigArg>,
    /// Whether the signature ends in `...`.
    pub variadic: bool,
    /// The return type; `None` is the default unit return.
    pub output: Option<TypeExpr>,
}

/// One named parameter of a generated signature.
#[derive(Clone, Debug)]
pub enum SigArg {
    /// The receiver parameter, carried through.
    Receiver(Receiver),
    /// A typed parameter with its binding name.
    Typed {
        /// The binding name.
        name: String,
        /// The parameter type.
        ty: TypeExpr,
    },
}

/// How many parameters among the first `n` carry no binding name; those get
/// numbered names when a signature is derived.
pub open spec fn unnamed_before(inputs: Seq<VtableFnArg>, n: int) -> nat
    decreases n,
{
    if n <= 0 || n > inputs.len() {
        0
    } else {
        unnamed_before(inputs, n - 1) + (match inputs[n - 1] {
            VtableFnArg::Normal(b) => if b.name is None {
                1nat
            } else {
                0nat
            },
            VtableFnArg::Receiver(_) => 0nat,
        })
    }
}

/// Whether a generated signature parameter is the right rendering of a
/// descriptor parameter: a receiver is carried through; a named parameter
/// keeps its name; an unnamed one gets the prefix followed by the count of
/// unnamed parameters before it.
pub open spec fn sig_arg_ok(a: VtableFnArg, out: SigArg, prefix: Seq<char>, k: nat) -> bool {
    match a {
        VtableFnArg::Receiver(rec) => out == SigArg::Receiver(rec),
        VtableFnArg::Normal(b) => match b.name {
            Some(n) => out == (SigArg::Typed { name: n, ty: b.ty }),
            None => out matches SigArg::Typed { name, ty } && name@ == prefix + decimal_of(k)
                && ty == b.ty,
        },
    }
}

impl VtableItem {
    /// The slot's function-pointer type: the descriptor's shape with the
    /// method name stripped.
    pub fn to_function_pointer(&self) -> (r: FnPointerType)
        ensures
            r.lifetimes@ == self.lifetimes@,
            r.unsafety == self.unsafety,
            r.abi == self.abi,
            r.params@ == self.inputs@,
            r.variadic == self.variadic,
            r.output == self.output,
    {
        let mut params: Vec<VtableFnArg> = Vec::new();
        let mut i: usize = 0;
        while i < self.inputs.len()
            invariant
                0 <= i <= self.inputs@.len(),
                params@ == self.inputs@.subrange(0, i as int),
            decreases self.inputs@.len() - i,
        {
            params.push(self.inputs[i].duplicate());
            assert(params@ =~= self.inputs@.subrange(0, i + 1 as int));
            i += 1;
        }
        proof {
            assert(self.inputs@.subrange(0, self.inputs@.len() as int) =~= self.inputs@);
        }
        FnPointerType {
            lifetimes: clone_strings(&self.lifetimes),
            unsafety: self.unsafety,
            abi: clone_opt_string(&self.abi),
            params,
            variadic: self.variadic,
            output: clone_opt_type(&self.output),
        }
    }

    /// Renders the descriptor as a declarable signature, giving each unnamed
    /// parameter a numbered name built from the prefix.
    #[verifier::loop_isolation(false)]
    pub fn into_signature(self, prefix: &str) -> (r: Signature)
        ensures
            r.unsafety == self.unsafety,
            r.abi == self.abi,
            r.name == self.name,
            r.lifetimes == self.lifetimes,
            r.variadic == self.variadic,
            r.output == self.output,
            r.inputs@.len() == self.inputs@.len(),
            forall|i: int|
                0 <= i < self.inputs@.len() ==> sig_arg_ok(
                    self.inputs@[i],
                    #[trigger] r.inputs@[i],
                    prefix@,
                    unnamed_before(self.inputs@, i),
                ),
    {
        let ghost orig = self.inputs@;
        let mut rest = self.inputs;
        let total: usize = rest.len();
        let mut inputs: Vec<SigArg> = Vec::new();
        let mut counter: usize = 0;
        let ghost k: int = 0;
        while rest.len() > 0
            invariant
                0 <= k <= orig.len(),
                orig.len() == total,
                rest@ =~= orig.subrange(k, orig.len() as int),
                inputs@.len() == k,
                counter <= k,
                counter == unnamed_before(orig, k),
                forall|i: int|
                    0 <= i < k ==> sig_arg_ok(
                        orig[i],
                        #[trigger] inputs@[i],
                        prefix@,
                        unnamed_before(orig, i),
                    ),
            decreases rest@.len(),
        {
            let arg = rest.remove(0);
            proof {
                assert(arg == orig[k]);
            }
            match arg {
                VtableFnArg::Receiver(rec) => {
                    inputs.push(SigArg::Receiver(rec));
                },
                VtableFnArg::Normal(b) => {
                    match b.name {
                        Some(n) => {
                            inputs.push(SigArg::Typed { name: n, ty: b.ty });
                        },
                        None => {
                            let name = numbered_arg_name(prefix, counter);
                            inputs.push(SigArg::Typed { name, ty: b.ty });
                            counter += 1;
                        },
                    }
                },
            }
            proof {
                k = k + 1;
                assert(rest@ =~= orig.subrange(k, orig.len() as int));
            }
        }
        Signature {
            unsafety: self.unsafety,
            abi: self.abi,
            name: self.name,
            lifetimes: self.lifetimes,
            inputs,
            variadic: self.variadic,
            output: self.output,
        }
    }
}

/// The diagnostic an interface item is rejected with, if any.
pub open spec fn item_diag(item: TraitItemDecl) -> Option<Diagnostic> {
    match item {
        TraitItemDecl::Method(sig) => method_diag(sig),
        TraitItemDecl::AssocConst { span } => Some(
            Diagnostic { kind: ErrorKind::UnsupportedItemKind, span },
        ),
        TraitItemDecl::AssocType { span } => Some(
            Diagnostic { kind: ErrorKind::UnsupportedItemKind, span },
        ),
        TraitItemDecl::MacroInvocation { span } => Some(
            Diagnostic { kind: ErrorKind::MacroItemUnsupported, span },
        ),
        TraitItemDecl::Other { span } => Some(
            Diagnostic { kind: ErrorKind::UnsupportedItemKind, span },
        ),
    }
}

/// The first diagnostic among the items starting at position `i`, if any.
pub open spec fn find_item_diag(items: Seq<TraitItemDecl>, i: int) -> Option<Diagnostic>
    decreases items.len() - i,
{
    if i < 0 || i >= items.len() {
        None
    } else if item_diag(items[i]) is Some {
        item_diag(items[i])
    } else {
        find_item_diag(items, i + 1)
    }
}

/// Whether a descriptor is the normalization of an interface item.
pub open spec fn item_normalizes_decl(v: VtableItem, item: TraitItemDecl) -> bool {
    item matches TraitItemDecl::Method(sig) && item_normalizes(v, sig)
}

/// Where the invoke-destructor operation of a table routes: to the table's
/// own destructor slot, or to the embedded super-table.
#[derive(Clone, Copy, Debug, PartialEq, Eq, Structural)]
pub enum DropRouting {
    /// The table holds the destructor slot and calls it directly.
    CallLocalSlot,
    /// The table holds no destructor slot; teardown forwards to the
    /// embedded super-table.
    ForwardToSuper,
}

/// One function-pointer slot of the table schema.
#[derive(Clone, Debug)]
pub struct VtableSlotDecl {
    /// The slot's name: the method name.
    pub name: String,
    /// The slot's promoted function-pointer type: `unsafe`, receiver erased.
    pub fn_ptr: FnPointerType,
}

/// The dispatch-table schema: a fixed-layout record whose field order is the
/// method declaration order, preceded by the optional embedded super-table
/// and optional layout metadata, and followed by the destructor slot at the
/// root of an extension chain only. The type derives structural copy
/// semantics, and its inspection and hashing read the pointer values of the
/// slots: the identity of the functions, not their content.
#[derive(Clone, Debug)]
pub struct VtableDef {
    /// The table type's name.
    pub name: String,
    /// The table type's visibility.
    pub visibility: Visibility,
    /// The attributes attached to the table type.
    pub attributes: Vec<AttrDecl>,
    /// Whether the default C-layout attribute is added because none of the
    /// given attributes overrides the representation.
    pub add_default_repr_c: bool,
    /// The table type derives copy and clone semantics.
    pub derive_copy_clone: bool,
    /// Inspection and hashing go over the slots' pointer values.
    pub hash_debug_over_slot_pointers: bool,
    /// The embedded super-table's type path, present exactly when this
    /// interface extends another.
    pub super_table: Option<Path>,
    /// Whether the table embeds the implementation's size and alignment.
    pub store_layout: bool,
    /// One slot per method, in declaration order.
    pub slots: Vec<VtableSlotDecl>,
    /// Whether the table holds a destructor slot; true exactly at the root
    /// of an extension chain.
    pub has_drop_slot: bool,
    /// The destructor slot's calling convention, when the slot exists and a
    /// convention is configured.
    pub drop_abi: Option<String>,
}

impl VtableDef {
    /// Where this table's invoke-destructor operation routes.
    pub open spec fn spec_drop_routing(self) -> DropRouting {
        if self.super_table is Some {
            DropRouting::ForwardToSuper
        } else {
            DropRouting::CallLocalSlot
        }
    }

    /// The invoke-destructor operation's routing: a root table calls its own
    /// destructor slot; an extending table forwards to the embedded
    /// super-table, so only the root ever holds a destructor slot.
    pub fn drop_routing(&self) -> (r: DropRouting)
        ensures
            r == self.spec_drop_routing(),
    {
        match self.super_table {
            Some(_) => DropRouting::ForwardToSuper,
            None => DropRouting::CallLocalSlot,
        }
    }
}

/// Whether one of the attributes overrides the representation.
pub open spec fn has_repr_attr(attrs: Seq<AttrDecl>) -> bool {
    exists|i: int| 0 <= i < attrs.len() && (#[trigger] attrs[i]).head@ == "repr"@
}

/// The parameters of a slot's function-pointer type: every parameter with
/// the receiver erased to an untyped pointer.
pub open spec fn promoted_params(inputs: Seq<VtableFnArg>) -> Seq<VtableFnArg> {
    inputs.map_values(|a: VtableFnArg| VtableFnArg::Normal(spec_bare_of(a)))
}

/// Whether a slot is the promoted rendering of a method descriptor: same
/// name, `unsafe`, receiver erased, everything else carried through.
pub open spec fn slot_matches(s: VtableSlotDecl, item: VtableItem) -> bool {
    &&& s.name == item.name
    &&& s.fn_ptr.lifetimes@ == item.lifetimes@
    &&& s.fn_ptr.unsafety
    &&& s.fn_ptr.abi == item.abi
    &&& s.fn_ptr.params@ == promoted_params(item.inputs@)
    &&& s.fn_ptr.variadic == item.variadic
    &&& s.fn_ptr.output == item.output
}

/// Builds the dispatch-table schema from the build context: one promoted
/// slot per method descriptor in order, the embedded super-table field
/// exactly when the interface extends another, layout metadata when
/// configured, the destructor slot exactly at the root, and the default
/// C-layout attribute unless overridden.
#[verifier::loop_isolation(false)]
pub fn generate_vtable(
    stash: &StageStash,
    visibility: Visibility,
    attributes: Vec<AttrDecl>,
    drop_abi: &Option<String>,
    store_layout: bool,
) -> (r: VtableDef)
    requires
        stash.super_trait matches Some(p) ==> p.segments@.len() > 0,
    ensures
        r.name == stash.vtable_name,
        r.visibility == visibility,
        r.attributes == attributes,
        r.add_default_repr_c == !has_repr_attr(attributes@),
        r.derive_copy_clone,
        r.hash_debug_over_slot_pointers,
        match stash.super_trait {
            Some(p) => r.super_table matches Some(q) && renamed_last(
                q,
                p,
                vtable_name_of(p.spec_simple_name()),
            ),
            None => r.super_table is None,
        },
        r.store_layout == store_layout,
        r.slots@.len() == stash.vtable_items@.len(),
        forall|i: int|
            0 <= i < r.slots@.len() ==> slot_matches(#[trigger] r.slots@[i], stash.vtable_items@[i]),
        r.has_drop_slot == (stash.super_trait is None),
        r.drop_abi == (if stash.super_trait is None {
            *drop_abi
        } else {
            None::<String>
        }),
        r.spec_drop_routing() == (if stash.super_trait is Some {
            DropRouting::ForwardToSuper
        } else {
            DropRouting::CallLocalSlot
        }),
{
    let mut had_repr = false;
    let mut i: usize = 0;
    while i < attributes.len()
        invariant
            0 <= i <= attributes@.len(),
            had_repr == exists|j: int|
                0 <= j < i && (#[trigger] attributes@[j]).head@ == "repr"@,
        decreases attributes@.len() - i,
    {
        if str_matches(&attributes[i].head, "repr") {
            had_repr = true;
        }
        i += 1;
    }
    let mut slots: Vec<VtableSlotDecl> = Vec::new();
    let mut m: usize = 0;
    while m < stash.vtable_items.len()
        invariant
            0 <= m <= stash.vtable_items@.len(),
            slots@.len() == m,
            forall|j: int|
                0 <= j < m ==> slot_matches(#[trigger] slots@[j], stash.vtable_items@[j]),
        decreases stash.vtable_items@.len() - m,
    {
        let mut owned = stash.vtable_items[m].duplicate();
        owned.make_unsafe();
        owned.make_raw();
        let fn_ptr = owned.to_function_pointer();
        slots.push(VtableSlotDecl { name: stash.vtable_items[m].name.clone(), fn_ptr });
        m += 1;
    }
    let (super_table, has_drop_slot, drop_abi_out) = match &stash.super_trait {
        Some(p) => (Some(super_vtable_type(p)), false, None),
        None => (None, true, clone_opt_string(drop_abi)),
    };
    VtableDef {
        name: stash.vtable_name.clone(),
        visibility,
        attributes,
        add_default_repr_c: !had_repr,
        derive_copy_clone: true,
        hash_debug_over_slot_pointers: true,
        super_table,
        store_layout,
        slots,
        has_drop_slot,
        drop_abi: drop_abi_out,
    }
}

/// The index of the table where the invoke-destructor operation starting at
/// table `i` of an extension chain terminates; each table either holds the
/// destructor slot or forwards to its successor, the embedded super-table.
pub open spec fn drop_resolves_at(chain: Seq<VtableDef>, i: int) -> int
    decreases chain.len() - i,
{
    if i < 0 || i >= chain.len() {
        i
    } else if chain[i].super_table is None {
        i
    } else {
        drop_resolves_at(chain, i + 1)
    }
}

/// Destructor-slot omission: in an extension chain where only the last
/// table is the root, every extending table omits the destructor slot and
/// forwards teardown, and invoking the destructor from any table terminates
/// at the root's single destructor slot, whatever the chain depth.
pub proof fn lemma_drop_field_omission(chain: Seq<VtableDef>)
    requires
        chain.len() > 0,
        forall|i: int|
            0 <= i < chain.len() ==> ((#[trigger] chain[i].super_table) is None <==> i
                == chain.len() - 1),
        forall|i: int|
            0 <= i < chain.len() ==> (#[trigger] chain[i].has_drop_slot) == (
            chain[i].super_table is None),
    ensures
        forall|i: int|
            0 <= i < chain.len() ==> #[trigger] drop_resolves_at(chain, i) == chain.len() - 1,
        forall|i: int|
            0 <= i < chain.len() ==> ((#[trigger] chain[i].has_drop_slot) <==> i == chain.len()
                - 1),
        forall|i: int|
            0 <= i < chain.len() - 1 ==> (#[trigger] chain[i].spec_drop_routing())
                == DropRouting::ForwardToSuper,
        chain[chain.len() - 1].spec_drop_routing() == DropRouting::CallLocalSlot,
{
    assert forall|i: int| 0 <= i < chain.len() implies #[trigger] drop_resolves_at(chain, i)
        == chain.len() - 1 by {
        lemma_drop_resolves(chain, i);
    }
}

proof fn lemma_drop_resolves(chain: Seq<VtableDef>, i: int)
    requires
        0 <= i < chain.len(),
        forall|j: int|
            0 <= j < chain.len() ==> ((#[trigger] chain[j].super_table) is None <==> j
                == chain.len() - 1),
    ensures
        drop_resolves_at(chain, i) == chain.len() - 1,
    decreases chain.len() - i,
{
    if chain[i].super_table is None {
    } else {
        lemma_drop_resolves(chain, i + 1);
    }
}

/// Normalizes the ordered item list of the source interface into descriptor
/// form, or fails with the first item's diagnostic.
pub fn normalize_items(items: &Vec<TraitItemDecl>) -> (r: Result<Vec<VtableItem>, Diagnostic>)
    ensures
        match r {
            Ok(v) => {
                &&& find_item_diag(items@, 0) is None
                &&& v@.len() == items@.len()
                &&& forall|i: int|
                    0 <= i < v@.len() ==> item_normalizes_decl(#[trigger] v@[i], items@[i])
            },
            Err(d) => find_item_diag(items@, 0) == Some(d),
        },
{
    let mut v: Vec<VtableItem> = Vec::new();
    let mut i: usize = 0;
    while i < items.len()
        invariant
            0 <= i <= items@.len(),
            v@.len() == i,
            find_item_diag(items@, 0) == find_item_diag(items@, i as int),
            forall|j: int| 0 <= j < i ==> item_normalizes_decl(#[trigger] v@[j], items@[j]),
        decreases items@.len() - i,
    {
        match &items[i] {
            TraitItemDecl::Method(sig) => {
                match VtableItem::from_method(sig) {
                    Ok(item) => {
                        v.push(item);
                    },
                    Err(d) => {
                        return Err(d);
                    },
                }
            },
            TraitItemDecl::AssocConst { span } => {
                return Err(Diagnostic { kind: ErrorKind::UnsupportedItemKind, span: *span });
            },
            TraitItemDecl::AssocType { span } => {
                return Err(Diagnostic { kind: ErrorKind::UnsupportedItemKind, span: *span });
            },
            TraitItemDecl::MacroInvocation { span } => {
                return Err(Diagnostic { kind: ErrorKind::MacroItemUnsupported, span: *span });
            },
            TraitItemDecl::Other { span } => {
                return Err(Diagnostic { kind: ErrorKind::UnsupportedItemKind, span: *span });
            },
        }
        i += 1;
    }
    Ok(v)
}

} // verus!
