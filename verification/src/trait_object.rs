//! The boxed-handle artifact: a pointer-sized owning wrapper around the
//! representation allocation, together with its forwarding methods, marker
//! implementations and extension accessors.

use vstd::prelude::*;
use vstd::string::StringExecFns;

use crate::ast::{path_same, AttrDecl, Path, Visibility};
use crate::attr::{spec_data_ptr_method_name, spec_vtable_method_name, StageStash, TargetImpl};
use crate::error::{Diagnostic, ErrorKind};
use crate::inheritance::renamed_last;
use crate::marker_traits::{MarkerImplDecl, MarkerTrait};
use crate::names::{boxed_name_of, snake_case_of, to_snake_case};
use crate::vtable::{sig_arg_ok, unnamed_before, Signature, VtableItem};

verus! {

/// The complete name of the handle type: its identifier and whether it
/// carries an elided lifetime parameter.
#[derive(Clone, Debug)]
pub struct TraitObjectName {
    /// The identifier, `BoxedFoo` for instance.
    pub primary_name: String,
    /// Whether the type takes a lifetime parameter, written elided at use
    /// sites; omitted when the interface carries a `'static` bound.
    pub elided_lifetime: bool,
}

impl TraitObjectName {
    /// Structural copy; the copy equals the original.
    pub fn duplicate(&self) -> (r: TraitObjectName)
        ensures
            r == *self,
    {
        TraitObjectName {
            primary_name: self.primary_name.clone(),
            elided_lifetime: self.elided_lifetime,
        }
    }
}

/// The zero-cost reinterpretation accessors to the super-interface's handle
/// type, emitted when the interface extends another.
#[derive(Clone, Debug)]
pub struct CastFuncs {
    /// The borrowing accessor's name, `as_` followed by the super-interface
    /// name in snake case.
    pub ref_fn: String,
    /// The consuming accessor's name, `into_` followed by the
    /// super-interface name in snake case.
    pub val_fn: String,
    /// The super-interface's handle type path.
    pub super_object: Path,
}

/// One per-method forwarding implementation on the handle: it calls through
/// the named table slot, passing the raw data pointer as the erased receiver
/// and every other argument unchanged.
#[derive(Clone, Debug)]
pub struct ForwardingMethod {
    /// The method's declared signature, every parameter named.
    pub signature: Signature,
    /// The table slot the call goes through: the method's own slot.
    pub slot: String,
}

/// The boxed-handle artifact. The type itself is layout-transparent and
/// exactly one pointer wide: a single non-null pointer to the table plus a
/// zero-size lifetime marker; every accessor and forwarding method reads
/// through that one pointer.
#[derive(Clone, Debug)]
pub struct TraitObjectDef {
    /// The handle type's name.
    pub name: TraitObjectName,
    /// The handle type's visibility.
    pub visibility: Visibility,
    /// The attributes attached to the handle type; validated to contain no
    /// duplication-semantics or layout-override decoration.
    pub attributes: Vec<AttrDecl>,
    /// The handle type is layout-transparent over its pointer field.
    pub repr_transparent: bool,
    /// Whether the type takes a lifetime parameter; omitted when the
    /// interface carries a `'static` bound.
    pub has_lifetime_param: bool,
    /// The table type's name.
    pub vtable_name: String,
    /// The representation type's name, whose construction operation `new`
    /// delegates to.
    pub repr_name: String,
    /// Whether the stored pointer leads to the table by value or to a
    /// static reference to it.
    pub inline_vtable: bool,
    /// The data-pointer accessor the forwarding methods pass as the erased
    /// receiver.
    pub data_ptr_method: String,
    /// The table accessor the forwarding methods call through.
    pub vtable_method: String,
    /// The target the interface implementation is attached to: the handle
    /// type itself, or a blanket over the synthesized capability trait.
    pub impl_target: TargetImpl,
    /// The super-handle reinterpretation accessors, exactly when the
    /// interface extends another.
    pub cast_funcs: Option<CastFuncs>,
    /// One forwarding implementation per method, in declaration order.
    pub forwarding: Vec<ForwardingMethod>,
    /// One empty marker implementation per resolved capability marker, in
    /// order.
    pub markers: Vec<MarkerImplDecl>,
}

/// Whether an attribute may not be attached to the handle type: a derived
/// duplication behavior would break exclusive ownership, and a layout
/// override would break the one-pointer layout transparency.
pub open spec fn attr_forbidden(a: AttrDecl) -> bool {
    a.head@ == "derive"@ || a.head@ == "repr"@
}

/// The index of the first forbidden attribute, if any.
pub open spec fn find_forbidden_attr(attrs: Seq<AttrDecl>, i: int) -> Option<int>
    decreases attrs.len() - i,
{
    if i < 0 || i >= attrs.len() {
        None
    } else if attr_forbidden(attrs[i]) {
        Some(i)
    } else {
        find_forbidden_attr(attrs, i + 1)
    }
}

/// Rejects an attribute that would change the handle type's duplication
/// semantics or its layout transparency.
fn check_attribute(attribute: &AttrDecl) -> (r: Result<(), Diagnostic>)
    ensures
        match r {
            Ok(_) => !attr_forbidden(*attribute),
            Err(d) => attr_forbidden(*attribute) && d == (Diagnostic {
                kind: ErrorKind::ForbiddenDecoration,
                span: attribute.span,
            }),
        },
{
    if crate::ast::str_matches(&attribute.head, "derive") || crate::ast::str_matches(
        &attribute.head,
        "repr",
    ) {
        Err(Diagnostic { kind: ErrorKind::ForbiddenDecoration, span: attribute.span })
    } else {
        Ok(())
    }
}

/// The prefix of the numbered argument names the forwarding methods use.
pub open spec fn forward_arg_prefix() -> Seq<char> {
    "__arg"@
}

/// Whether a forwarding implementation is the right one for a method
/// descriptor: the method's own signature, unchanged but for numbered names
/// on unnamed parameters, calling through the method's own slot.
pub open spec fn forwarding_matches(f: ForwardingMethod, item: VtableItem) -> bool {
    &&& f.slot == item.name
    &&& f.signature.name == item.name
    &&& f.signature.unsafety == item.unsafety
    &&& f.signature.abi == item.abi
    &&& f.signature.lifetimes@ == item.lifetimes@
    &&& f.signature.variadic == item.variadic
    &&& f.signature.output == item.output
    &&& f.signature.inputs@.len() == item.inputs@.len()
    &&& forall|i: int|
        0 <= i < item.inputs@.len() ==> sig_arg_ok(
            item.inputs@[i],
            #[trigger] f.signature.inputs@[i],
            forward_arg_prefix(),
            unnamed_before(item.inputs@, i),
        )
}

/// Whether the emitted marker implementations correspond one to one, in
/// order, to the resolved capability markers, each attached to the handle
/// type.
pub open spec fn markers_emitted(
    out: Seq<MarkerImplDecl>,
    markers: Seq<MarkerTrait>,
    implementor: TraitObjectName,
) -> bool {
    &&& out.len() == markers.len()
    &&& forall|i: int|
        0 <= i < markers.len() ==> {
            &&& (#[trigger] out[i]).unsafety == markers[i].unsafety
            &&& path_same(out[i].trait_path, markers[i].path)
            &&& out[i].implementor == implementor
        }
}

/// Builds the boxed-handle artifact: the layout-transparent, pointer-sized
/// owning type, its forwarding implementations, its marker implementations,
/// and — when the interface extends another — the super-handle
/// reinterpretation accessors. Rejects any attached decoration that would
/// change the type's duplication semantics or layout transparency.
#[verifier::loop_isolation(false)]
pub fn generate_trait_object(
    stash: &StageStash,
    visibility: Visibility,
    inline_vtable: bool,
    has_static_bound: bool,
    attributes: Vec<AttrDecl>,
    markers: &Vec<MarkerTrait>,
) -> (r: Result<TraitObjectDef, Diagnostic>)
    requires
        stash.super_trait matches Some(p) ==> p.segments@.len() > 0,
    ensures
        match r {
            Ok(d) => {
                &&& find_forbidden_attr(attributes@, 0) is None
                &&& d.name == stash.trait_object_name
                &&& d.visibility == visibility
                &&& d.attributes == attributes
                &&& d.repr_transparent
                &&& d.has_lifetime_param == !has_static_bound
                &&& d.vtable_name == stash.vtable_name
                &&& d.repr_name == stash.repr_name
                &&& d.inline_vtable == inline_vtable
                &&& d.data_ptr_method@ == spec_data_ptr_method_name(stash.target_impl)
                &&& d.vtable_method@ == spec_vtable_method_name(stash.target_impl)
                &&& d.impl_target == stash.target_impl
                &&& match stash.super_trait {
                    Some(p) => d.cast_funcs matches Some(c) && ({
                        &&& c.ref_fn@ == "as_"@ + snake_case_of(p.spec_simple_name())
                        &&& c.val_fn@ == "into_"@ + snake_case_of(p.spec_simple_name())
                        &&& renamed_last(c.super_object, p, boxed_name_of(p.spec_simple_name()))
                    }),
                    None => d.cast_funcs is None,
                }
                &&& d.forwarding@.len() == stash.vtable_items@.len()
                &&& forall|i: int|
                    0 <= i < d.forwarding@.len() ==> forwarding_matches(
                        #[trigger] d.forwarding@[i],
                        stash.vtable_items@[i],
                    )
                &&& markers_emitted(d.markers@, markers@, stash.trait_object_name)
            },
            Err(e) => find_forbidden_attr(attributes@, 0) matches Some(i) && e == (Diagnostic {
                kind: ErrorKind::ForbiddenDecoration,
                span: attributes@[i].span,
            }),
        },
{
    let mut i: usize = 0;
    while i < attributes.len()
        invariant
            0 <= i <= attributes@.len(),
            find_forbidden_attr(attributes@, 0) == find_forbidden_attr(attributes@, i as int),
        decreases attributes@.len() - i,
    {
        match check_attribute(&attributes[i]) {
            Ok(_) => {},
            Err(d) => {
                proof {
                    assert(find_forbidden_attr(attributes@, i as int) == Some(i as int));
                }
                return Err(d);
            },
        }
        i += 1;
    }
    let mut marker_impls: Vec<MarkerImplDecl> = Vec::new();
    let mut j: usize = 0;
    while j < markers.len()
        invariant
            0 <= j <= markers@.len(),
            markers_emitted(
                marker_impls@,
                markers@.subrange(0, j as int),
                stash.trait_object_name,
            ),
        decreases markers@.len() - j,
    {
        marker_impls.push(markers[j].as_impl_for(&stash.trait_object_name));
        proof {
            assert(markers@.subrange(0, j + 1 as int).len() == j + 1);
            assert(forall|t: int|
                0 <= t < j + 1 ==> markers@.subrange(0, j + 1 as int)[t] == #[trigger] markers@[t]);
        }
        j += 1;
    }
    proof {
        assert(markers@.subrange(0, markers@.len() as int) =~= markers@);
    }
    let mut forwarding: Vec<ForwardingMethod> = Vec::new();
    let mut m: usize = 0;
    while m < stash.vtable_items.len()
        invariant
            0 <= m <= stash.vtable_items@.len(),
            forwarding@.len() == m,
            forall|t: int|
                0 <= t < m ==> forwarding_matches(
                    #[trigger] forwarding@[t],
                    stash.vtable_items@[t],
                ),
        decreases stash.vtable_items@.len() - m,
    {
        let item = &stash.vtable_items[m];
        let signature = item.duplicate().into_signature("__arg");
        forwarding.push(ForwardingMethod { signature, slot: item.name.clone() });
        m += 1;
    }
    let cast_funcs = match &stash.super_trait {
        Some(p) => {
            let simple = p.simple_name();
            let snake = to_snake_case(simple.as_str());
            let mut ref_fn = "as_".to_owned();
            ref_fn.append(snake.as_str());
            let mut val_fn = "into_".to_owned();
            val_fn.append(snake.as_str());
            let boxed = crate::names::derive_boxed_name(simple);
            Some(CastFuncs { ref_fn, val_fn, super_object: p.with_simple_name(boxed) })
        },
        None => None,
    };
    Ok(
        TraitObjectDef {
            name: stash.trait_object_name.duplicate(),
            visibility,
            attributes,
            repr_transparent: true,
            has_lifetime_param: !has_static_bound,
            vtable_name: stash.vtable_name.clone(),
            repr_name: stash.repr_name.clone(),
            inline_vtable,
            data_ptr_method: stash.target_impl.data_ptr_method_name(),
            vtable_method: stash.target_impl.vtable_method_name(),
            impl_target: stash.target_impl.duplicate(),
            cast_funcs,
            forwarding,
            markers: marker_impls,
        },
    )
}

} // verus!
