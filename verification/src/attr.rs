//! The shared build context threaded through the generator stages, and the
//! target mode that tells later stages which accessor names dispatch goes
//! through.

use vstd::prelude::*;

use crate::ast::Path;
use crate::names::{blanket_trait_name_of, vtable_method_name_of};
use crate::trait_object::TraitObjectName;
use crate::vtable::VtableItem;

verus! {

/// Which target later stages generate dispatch for: one concrete handle
/// type, or every type implementing a synthesized capability trait.
#[derive(Clone, Debug)]
pub enum TargetImpl {
    /// Generation targets one concrete handle type, `BoxedFoo`.
    SpecificTraitObject {
        /// The handle type's name.
        trait_object_name: TraitObjectName,
    },
    /// Generation targets every type implementing the synthesized
    /// capability trait; used with extension, so a sub-interface
    /// automatically satisfies its super-interface.
    BlanketTrait {
        /// The capability trait's name.
        trait_name: String,
        /// The capability trait's table accessor name.
        vtable_method: String,
    },
}

/// The name of the data-pointer accessor a target mode dispatches through.
pub open spec fn spec_data_ptr_method_name(t: TargetImpl) -> Seq<char> {
    match t {
        TargetImpl::SpecificTraitObject { .. } => "as_raw"@,
        TargetImpl::BlanketTrait { .. } => "data_ptr"@,
    }
}

/// The name of the table accessor a target mode dispatches through.
pub open spec fn spec_vtable_method_name(t: TargetImpl) -> Seq<char> {
    match t {
        TargetImpl::SpecificTraitObject { .. } => "vtable"@,
        TargetImpl::BlanketTrait { vtable_method, .. } => vtable_method@,
    }
}

impl TargetImpl {
    /// The name of the accessor returning the raw data pointer: the handle's
    /// inherent accessor, or the capability trait's.
    pub fn data_ptr_method_name(&self) -> (r: String)
        ensures
            r@ == spec_data_ptr_method_name(*self),
    {
        match self {
            TargetImpl::SpecificTraitObject { .. } => "as_raw".to_owned(),
            TargetImpl::BlanketTrait { .. } => "data_ptr".to_owned(),
        }
    }

    /// The name of the accessor returning a reference to the table: the
    /// handle's inherent accessor, or the capability trait's.
    pub fn vtable_method_name(&self) -> (r: String)
        ensures
            r@ == spec_vtable_method_name(*self),
    {
        match self {
            TargetImpl::SpecificTraitObject { .. } => "vtable".to_owned(),
            TargetImpl::BlanketTrait { vtable_method, .. } => vtable_method.clone(),
        }
    }

    /// Structural copy; the copy equals the original.
    pub fn duplicate(&self) -> (r: TargetImpl)
        ensures
            r == *self,
    {
        match self {
            TargetImpl::SpecificTraitObject { trait_object_name } => {
                TargetImpl::SpecificTraitObject { trait_object_name: trait_object_name.duplicate() }
            },
            TargetImpl::BlanketTrait { trait_name, vtable_method } => {
                TargetImpl::BlanketTrait {
                    trait_name: trait_name.clone(),
                    vtable_method: vtable_method.clone(),
                }
            },
        }
    }

    /// Whether this target mode is the blanket-capability mode with the
    /// names derived from the given interface name.
    pub open spec fn is_blanket_for(self, trait_name: Seq<char>) -> bool {
        self matches TargetImpl::BlanketTrait { trait_name: tn, vtable_method: vm }
            && tn@ == blanket_trait_name_of(trait_name) && vm@ == vtable_method_name_of(trait_name)
    }
}

/// The shared build context: created once per transformation, read and
/// selectively updated by each generator stage. The method descriptor list
/// is never changed after normalization.
#[derive(Debug)]
pub struct StageStash {
    /// The interface name.
    pub trait_name: String,
    /// The table type name.
    pub vtable_name: String,
    /// Where the table type name stands in the input, when customized.
    pub vtable_name_span: usize,
    /// The representation type name.
    pub repr_name: String,
    /// The target mode later stages generate dispatch for.
    pub target_impl: TargetImpl,
    /// The super-interface this one extends, when configured.
    pub super_trait: Option<Path>,
    /// The handle type's name.
    pub trait_object_name: TraitObjectName,
    /// The normalized method descriptors, in declaration order.
    pub vtable_items: Vec<VtableItem>,
}

} // verus!

verus! {

/// The three generated artifacts plus the optional extension and capability
/// glue; what a successful transformation hands back to the driver, which
/// splices them beside the untouched interface declaration.
#[derive(Debug)]
pub struct Artifacts {
    /// The dispatch-table schema.
    pub vtable: crate::vtable::VtableDef,
    /// The representation artifact.
    pub repr: crate::repr::ReprDef,
    /// The boxed-handle artifact.
    pub trait_object: crate::trait_object::TraitObjectDef,
    /// The possible-super-interface artifact, when configured.
    pub possible_super_trait: Option<crate::inheritance::PossibleSuperTrait>,
    /// The extends artifact, when configured.
    pub extends_impl: Option<crate::inheritance::ExtendsSuperTrait>,
}

/// The table type name the transformation settles on: the configured custom
/// name, or the deterministic derivation from the interface name.
pub open spec fn expected_vtable_name(options: Seq<crate::options::RawOption>, t: Seq<char>) -> Seq<
    char,
> {
    match crate::options::raw_last_additions(options, "vtable"@) {
        Some(a) => a.name@,
        None => crate::names::vtable_name_of(t),
    }
}

/// The handle type name the transformation settles on.
pub open spec fn expected_boxed_name(options: Seq<crate::options::RawOption>, t: Seq<char>) -> Seq<
    char,
> {
    match crate::options::raw_last_additions(options, "trait_object"@) {
        Some(a) => a.name@,
        None => crate::names::boxed_name_of(t),
    }
}

/// Whether the configuration combines a customized table name with the
/// possible-super-interface role, which the accessor-name derivation cannot
/// support.
pub open spec fn raw_vtable_name_conflict(
    options: Seq<crate::options::RawOption>,
    t: Seq<char>,
) -> bool {
    crate::options::raw_possible_super_trait(options) && expected_vtable_name(options, t)
        != crate::names::vtable_name_of(t)
}

/// The span the table-name conflict diagnostic points at.
pub open spec fn raw_vtable_name_span(options: Seq<crate::options::RawOption>) -> usize {
    match crate::options::raw_last_additions(options, "vtable"@) {
        Some(a) => a.name_span,
        None => 0,
    }
}

/// The attributes the configuration attaches to the handle type.
pub open spec fn raw_trait_object_attrs(options: Seq<crate::options::RawOption>) -> Seq<
    crate::ast::AttrDecl,
> {
    match crate::options::raw_last_additions(options, "trait_object"@) {
        Some(a) => a.attributes@,
        None => Seq::empty(),
    }
}

/// Whether extension support is active under the given raw configuration.
pub open spec fn raw_extension_active(options: Seq<crate::options::RawOption>) -> bool {
    crate::options::raw_extends(options) is Some || crate::options::raw_possible_super_trait(
        options,
    )
}

/// The marker filter the raw configuration selects.
pub open spec fn marker_filter_of(o: Option<Vec<crate::marker_traits::MarkerTrait>>)
    -> crate::marker_traits::MarkerFilter {
    match o {
        Some(l) => crate::marker_traits::MarkerFilter::Explicit(l),
        None => crate::marker_traits::MarkerFilter::DefaultTable,
    }
}

/// The single diagnostic a transformation fails with, if any, in detection
/// order: a configuration diagnostic, a generic interface, an interface item
/// diagnostic, extension configured without the capability, a customized
/// table name combined with the possible-super-interface role, and a
/// forbidden decoration on the handle type.
pub open spec fn transform_diag(
    options: Seq<crate::options::RawOption>,
    trait_def: crate::ast::TraitDecl,
    inheritance_enabled: bool,
) -> Option<crate::error::Diagnostic> {
    if crate::options::find_attr_diag(options, 0) is Some {
        crate::options::find_attr_diag(options, 0)
    } else if trait_def.generics@.len() > 0 {
        Some(
            crate::error::Diagnostic {
                kind: crate::error::ErrorKind::GenericInterface,
                span: trait_def.generics@[0].span,
            },
        )
    } else if crate::vtable::find_item_diag(trait_def.items@, 0) is Some {
        crate::vtable::find_item_diag(trait_def.items@, 0)
    } else if crate::options::raw_has_inheritance(options) && !inheritance_enabled {
        Some(
            crate::error::Diagnostic {
                kind: crate::error::ErrorKind::InheritanceNotEnabled,
                span: trait_def.span,
            },
        )
    } else if raw_vtable_name_conflict(options, trait_def.name@) {
        Some(
            crate::error::Diagnostic {
                kind: crate::error::ErrorKind::CustomVtableNameUnsupported,
                span: raw_vtable_name_span(options),
            },
        )
    } else if crate::trait_object::find_forbidden_attr(raw_trait_object_attrs(options), 0)
        is Some {
        Some(
            crate::error::Diagnostic {
                kind: crate::error::ErrorKind::ForbiddenDecoration,
                span: raw_trait_object_attrs(options)[crate::trait_object::find_forbidden_attr(
                    raw_trait_object_attrs(options),
                    0,
                )->0].span,
            },
        )
    } else {
        None
    }
}

/// Whether one method's generated pieces — its table slot, its slot
/// initialization, its forwarding implementation, and its thunk when
/// extension is active — all derive from the normalization of the same
/// interface item.
pub open spec fn generated_for_item(
    s: crate::vtable::VtableSlotDecl,
    si: crate::repr::SlotInit,
    f: crate::trait_object::ForwardingMethod,
    thunks: Seq<crate::repr::ThunkDef>,
    i: int,
    item: crate::ast::TraitItemDecl,
    ext: bool,
) -> bool {
    exists|v: crate::vtable::VtableItem|
        #![trigger crate::vtable::item_normalizes_decl(v, item)]
        {
            &&& crate::vtable::item_normalizes_decl(v, item)
            &&& crate::vtable::slot_matches(s, v)
            &&& crate::repr::slot_init_matches(si, v, ext)
            &&& crate::trait_object::forwarding_matches(f, v)
            &&& (ext ==> 0 <= i < thunks.len() && crate::repr::thunk_matches(thunks[i], v))
        }
}

/// What a successful transformation guarantees of its artifacts, stated
/// over the raw input.
pub open spec fn artifacts_match(
    a: Artifacts,
    options: Seq<crate::options::RawOption>,
    trait_def: crate::ast::TraitDecl,
) -> bool {
    let t = trait_def.name@;
    let ext = raw_extension_active(options);
    let n = trait_def.items@.len();
    &&& a.vtable.name@ == expected_vtable_name(options, t)
    &&& a.trait_object.name.primary_name@ == expected_boxed_name(options, t)
    &&& a.repr.name@ == crate::names::repr_name_of(t)
    &&& a.repr.vtable_name == a.vtable.name
    &&& a.trait_object.vtable_name == a.vtable.name
    &&& a.trait_object.repr_name == a.repr.name
    &&& a.trait_object.repr_transparent
    &&& a.trait_object.name.elided_lifetime == !crate::ast::spec_has_static_bound(
        trait_def.supertraits@,
    )
    &&& a.trait_object.has_lifetime_param == a.trait_object.name.elided_lifetime
    &&& a.vtable.store_layout == (crate::options::raw_last_bool(options, "store_layout"@) == Some(
        true,
    ))
    &&& a.repr.store_layout == a.vtable.store_layout
    &&& a.repr.inline_vtable == (crate::options::raw_last_bool(options, "inline_vtable"@) == Some(
        true,
    ))
    &&& a.trait_object.inline_vtable == a.repr.inline_vtable
    &&& a.repr.drop_abi == crate::options::raw_last_str(options, "drop_abi"@)
    &&& a.vtable.has_drop_slot == (crate::options::raw_extends(options) is None)
    &&& a.repr.has_drop_slot_init == a.vtable.has_drop_slot
    &&& a.vtable.drop_abi == (if a.vtable.has_drop_slot {
        crate::options::raw_last_str(options, "drop_abi"@)
    } else {
        None
    })
    &&& match crate::options::raw_extends(options) {
        Some(p) => {
            &&& a.vtable.super_table matches Some(q) && crate::inheritance::renamed_last(
                q,
                p,
                crate::names::vtable_name_of(p.spec_simple_name()),
            )
            &&& a.repr.super_vtable_init matches Some(q) && crate::inheritance::renamed_last(
                q,
                p,
                crate::names::repr_name_of(p.spec_simple_name()),
            )
            &&& a.extends_impl matches Some(e) && ({
                &&& crate::ast::path_same(e.super_trait, p)
                &&& crate::inheritance::renamed_last(
                    e.super_trait_blanket_impl,
                    p,
                    crate::names::blanket_trait_name_of(p.spec_simple_name()),
                )
                &&& crate::inheritance::renamed_last(
                    e.super_vtable_type,
                    p,
                    crate::names::vtable_name_of(p.spec_simple_name()),
                )
            })
            &&& a.trait_object.cast_funcs matches Some(c) && ({
                &&& c.ref_fn@ == "as_"@ + crate::names::snake_case_of(p.spec_simple_name())
                &&& c.val_fn@ == "into_"@ + crate::names::snake_case_of(p.spec_simple_name())
                &&& crate::inheritance::renamed_last(
                    c.super_object,
                    p,
                    crate::names::boxed_name_of(p.spec_simple_name()),
                )
            })
        },
        None => {
            &&& a.vtable.super_table is None
            &&& a.repr.super_vtable_init is None
            &&& a.extends_impl is None
            &&& a.trait_object.cast_funcs is None
        },
    }
    &&& if crate::options::raw_possible_super_trait(options) {
        &&& a.possible_super_trait matches Some(pst) && ({
            &&& pst.target_trait@ == t
            &&& pst.vtable_type@ == crate::names::vtable_name_of(t)
            &&& pst.blanket_impl matches Some(bi) && bi.trait_name@
                == crate::names::blanket_trait_name_of(t) && bi.vtable_method@
                == crate::names::vtable_method_name_of(t)
        })
        &&& a.trait_object.impl_target.is_blanket_for(t)
    } else {
        &&& a.possible_super_trait is None
        &&& a.trait_object.impl_target is SpecificTraitObject
    }
    &&& a.vtable.slots@.len() == n
    &&& a.repr.slot_inits@.len() == n
    &&& a.trait_object.forwarding@.len() == n
    &&& (ext ==> a.repr.thunks@.len() == n)
    &&& (!ext ==> a.repr.thunks@.len() == 0)
    &&& forall|i: int|
        0 <= i < n ==> #[trigger] generated_for_item(
            a.vtable.slots@[i],
            a.repr.slot_inits@[i],
            a.trait_object.forwarding@[i],
            a.repr.thunks@,
            i,
            trait_def.items@[i],
            ext,
        )
    &&& crate::trait_object::markers_emitted(
        a.trait_object.markers@,
        crate::marker_traits::spec_markers(
            trait_def.supertraits@,
            marker_filter_of(crate::options::raw_last_markers(options)),
        ),
        a.trait_object.name,
    )
}

/// Idempotent naming: with no name customization configured, the table type
/// is always named by appending `Vtable` to the interface name and the
/// handle type by prefixing `Boxed`, whatever else the configuration holds;
/// the names are a function of the interface name alone.
pub proof fn lemma_idempotent_naming(options: Seq<crate::options::RawOption>, t: Seq<char>)
    requires
        crate::options::raw_last_additions(options, "vtable"@) is None,
        crate::options::raw_last_additions(options, "trait_object"@) is None,
    ensures
        expected_vtable_name(options, t) == t + "Vtable"@,
        expected_boxed_name(options, t) == "Boxed"@ + t,
{
}

/// The whole transformation: resolves the configuration, validates the
/// interface, normalizes its items, splits its supertype bounds, resolves
/// extension, and derives the three artifacts plus the extension and
/// capability glue — or fails with exactly one diagnostic tied to the
/// offending input span, emitting nothing.
#[verifier::loop_isolation(false)]
pub fn attribute_main(
    options: Vec<crate::options::RawOption>,
    trait_def: crate::ast::TraitDecl,
    inheritance_enabled: bool,
) -> (r: Result<Artifacts, crate::error::Diagnostic>)
    requires
        crate::options::raw_paths_wf(options@),
    ensures
        match r {
            Ok(a) => transform_diag(options@, trait_def, inheritance_enabled) is None
                && artifacts_match(a, options@, trait_def),
            Err(d) => transform_diag(options@, trait_def, inheritance_enabled) == Some(d),
        },
{
    let ghost opts = options@;
    let parsed = match crate::options::parse_attr_options(options) {
        Ok(p) => p,
        Err(d) => {
            return Err(d);
        },
    };
    let ghost parsed_seq = parsed@;
    let config = crate::options::Config::from_options(parsed);
    proof {
        crate::options::lemma_find_attr_none(opts, 0);
        crate::options::lemma_parsed_projections(opts, parsed_seq);
        match crate::options::raw_last_inheritance(opts) {
            Some(subs) => {
                let io = crate::options::last_inheritance(parsed_seq)->0;
                crate::options::lemma_find_inh_none(subs@, 0);
                crate::options::lemma_parsed_inh_projections(subs@, io@);
            },
            None => {},
        }
        crate::options::lemma_raw_extends_wf(opts);
    }
    let crate::ast::TraitDecl {
        name: trait_name,
        vis: trait_vis,
        generics,
        supertraits,
        items,
        span: trait_span,
    } = trait_def;
    if generics.len() > 0 {
        return Err(
            crate::error::Diagnostic {
                kind: crate::error::ErrorKind::GenericInterface,
                span: generics[0].span,
            },
        );
    }
    let (vtable_name, vtable_name_span) = match config.vtable_name {
        Some(n) => (n, config.vtable_name_span),
        None => (crate::names::derive_vtable_name(&trait_name), 0),
    };
    let trait_object_primary = match config.trait_object_name {
        Some(n) => n,
        None => crate::names::derive_boxed_name(&trait_name),
    };
    let vtable_visibility = match config.vtable_visibility {
        Some(v) => v,
        None => trait_vis.duplicate(),
    };
    let to_visibility = match config.trait_object_visibility {
        Some(v) => v,
        None => trait_vis.duplicate(),
    };
    let vtable_items = match crate::vtable::normalize_items(&items) {
        Ok(v) => v,
        Err(d) => {
            return Err(d);
        },
    };
    let has_static = crate::ast::has_static_bound(&supertraits);
    let filter = match config.marker_traits {
        Some(list) => crate::marker_traits::MarkerFilter::Explicit(list),
        None => crate::marker_traits::MarkerFilter::DefaultTable,
    };
    let (markers, _lifetime_bounds) = crate::marker_traits::supertraits_to_markers_and_lifetimes(
        supertraits,
        &filter,
    );
    let repr_name = crate::repr::repr_name_from_trait_name(&trait_name);
    let trait_object_name = crate::trait_object::TraitObjectName {
        primary_name: trait_object_primary,
        elided_lifetime: !has_static,
    };
    let mut stash = StageStash {
        trait_name,
        vtable_name,
        vtable_name_span,
        repr_name,
        target_impl: TargetImpl::SpecificTraitObject {
            trait_object_name: trait_object_name.duplicate(),
        },
        super_trait: match &config.inheritance {
            Some(ic) => match &ic.extends {
                Some(p) => Some(p.duplicate()),
                None => None,
            },
            None => None,
        },
        trait_object_name,
        vtable_items,
    };
    let mut possible_super_trait: Option<crate::inheritance::PossibleSuperTrait> = None;
    let mut extends_impl: Option<crate::inheritance::ExtendsSuperTrait> = None;
    match &config.inheritance {
        Some(ic) => {
            if !inheritance_enabled {
                return Err(
                    crate::error::Diagnostic {
                        kind: crate::error::ErrorKind::InheritanceNotEnabled,
                        span: trait_span,
                    },
                );
            }
            possible_super_trait = match crate::inheritance::handle_possible_super_trait(
                &mut stash,
                vtable_visibility.duplicate(),
                ic,
            ) {
                Ok(p) => p,
                Err(d) => {
                    return Err(d);
                },
            };
            extends_impl = match crate::inheritance::handle_extends(&mut stash, ic) {
                Ok(e) => e,
                Err(d) => {
                    return Err(d);
                },
            };
        },
        None => {},
    }
    let vtable = crate::vtable::generate_vtable(
        &stash,
        vtable_visibility,
        config.vtable_attributes,
        &config.drop_abi,
        config.store_layout,
    );
    let repr = crate::repr::generate_repr(
        &stash,
        config.inline_vtable,
        crate::repr::path_to_box(),
        &config.drop_abi,
        config.store_layout,
    );
    let trait_object = match crate::trait_object::generate_trait_object(
        &stash,
        to_visibility,
        config.inline_vtable,
        has_static,
        config.trait_object_attributes,
        &markers,
    ) {
        Ok(t) => t,
        Err(d) => {
            return Err(d);
        },
    };
    proof {
        let ext = raw_extension_active(opts);
        assert forall|i: int| 0 <= i < trait_def.items@.len() implies #[trigger] generated_for_item(
            vtable.slots@[i],
            repr.slot_inits@[i],
            trait_object.forwarding@[i],
            repr.thunks@,
            i,
            trait_def.items@[i],
            ext,
        ) by {
            let w = stash.vtable_items@[i];
            assert(crate::vtable::item_normalizes_decl(w, trait_def.items@[i]));
            assert(crate::vtable::slot_matches(vtable.slots@[i], w));
            assert(crate::repr::slot_init_matches(repr.slot_inits@[i], w, ext));
            assert(crate::trait_object::forwarding_matches(trait_object.forwarding@[i], w));
            assert(ext ==> crate::repr::thunk_matches(repr.thunks@[i], w));
        }
    }
    Ok(Artifacts { vtable, repr, trait_object, possible_super_trait, extends_impl })
}

} // verus!
