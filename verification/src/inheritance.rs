//! The extension resolver: the optional single-level `extends` relationship
//! and the optional possible-super-interface role.
//!
//! A possible super-interface gets a synthesized capability trait exposing
//! the raw data pointer and a table accessor, plus a blanket implementation
//! of it for the handle type; the build context then switches to the
//! blanket-capability target mode. An interface that extends another gets an
//! implementation of the super-interface's capability trait whose table
//! accessor extracts the embedded super-table.

use vstd::prelude::*;

use crate::ast::{path_same, Path, Visibility};
use crate::attr::{spec_data_ptr_method_name, spec_vtable_method_name, StageStash, TargetImpl};
use crate::error::{Diagnostic, ErrorKind};
use crate::names::{
    blanket_trait_name_of, derive_blanket_trait_name, derive_vtable_method_name,
    derive_vtable_name, vtable_method_name_of, vtable_name_of,
};
use crate::options::InheritanceConfig;
use crate::trait_object::TraitObjectName;

verus! {

/// Whether path `r` is path `p` with its last segment's text replaced by
/// `name`, everything else carried through unchanged.
pub open spec fn renamed_last(r: Path, p: Path, name: Seq<char>) -> bool {
    &&& p.segments@.len() > 0
    &&& r.leading_colon == p.leading_colon
    &&& r.segments@.len() == p.segments@.len()
    &&& forall|i: int|
        0 <= i < p.segments@.len() - 1 ==> #[trigger] r.segments@[i] == p.segments@[i]
    &&& r.segments@.last()@ == name
}

/// The capability trait's name for a target interface path: the last
/// segment renamed by the deterministic derivation.
fn blanket_trait_path(target_trait: &Path) -> (r: Path)
    requires
        target_trait.segments@.len() > 0,
    ensures
        renamed_last(r, *target_trait, blanket_trait_name_of(target_trait.spec_simple_name())),
{
    let simple = derive_blanket_trait_name(target_trait.simple_name());
    target_trait.with_simple_name(simple)
}

/// The table accessor name for a target interface path.
fn vtable_method_name(target_trait: &Path) -> (r: String)
    requires
        target_trait.segments@.len() > 0,
    ensures
        r@ == vtable_method_name_of(target_trait.spec_simple_name()),
{
    derive_vtable_method_name(target_trait.simple_name())
}

/// The super-interface's table type path, by the same deterministic
/// derivation that names this interface's own table.
pub fn super_vtable_type(super_trait: &Path) -> (r: Path)
    requires
        super_trait.segments@.len() > 0,
    ensures
        renamed_last(r, *super_trait, vtable_name_of(super_trait.spec_simple_name())),
{
    let simple = derive_vtable_name(super_trait.simple_name());
    super_trait.with_simple_name(simple)
}

/// The blanket implementation of the synthesized capability trait for the
/// handle type: its data-pointer method forwards to the handle's raw
/// accessor, its table accessor to the handle's inherent one.
#[derive(Clone, Debug)]
pub struct PossibleSuperTraitImpl {
    /// The capability trait being implemented.
    pub trait_name: String,
    /// The handle type the implementation is attached to.
    pub implementor: TraitObjectName,
    /// The capability trait's table accessor name.
    pub vtable_method: String,
    /// The table type the accessor returns a reference to.
    pub vtable_type: String,
}

/// The possible-super-interface artifact: a synthesized capability trait
/// exposing the raw data pointer and this interface's table, plus its
/// blanket implementation for the handle type.
#[derive(Clone, Debug)]
pub struct PossibleSuperTrait {
    /// The interface this capability trait belongs to.
    pub target_trait: String,
    /// The table type the capability trait's accessor returns.
    pub vtable_type: String,
    /// The visibility of the synthesized trait.
    pub vis: Visibility,
    /// The blanket implementation for the handle type.
    pub blanket_impl: Option<PossibleSuperTraitImpl>,
}

/// The declaration of the synthesized capability trait: its name and
/// visibility, and its two methods — one returning the raw data pointer,
/// one returning a reference to this interface's table.
#[derive(Clone, Debug)]
pub struct CapabilityTraitDecl {
    /// The trait's name.
    pub name: String,
    /// The trait's visibility.
    pub vis: Visibility,
    /// The raw-data-pointer accessor's name.
    pub data_ptr_method: String,
    /// The table accessor's name.
    pub vtable_method: String,
    /// The table type the accessor returns a reference to.
    pub vtable_type: String,
}

impl PossibleSuperTrait {
    /// The synthesized capability trait's name, derived deterministically
    /// from the interface name.
    pub fn blanket_trait_name(&self) -> (r: String)
        ensures
            r@ == blanket_trait_name_of(self.target_trait@),
    {
        derive_blanket_trait_name(&self.target_trait)
    }

    /// Resolves the capability trait's declaration.
    pub fn generate_trait_decl(&self) -> (r: CapabilityTraitDecl)
        ensures
            r.name@ == blanket_trait_name_of(self.target_trait@),
            crate::ast::vis_same(r.vis, self.vis),
            r.data_ptr_method@ == "data_ptr"@,
            r.vtable_method@ == vtable_method_name_of(self.target_trait@),
            r.vtable_type == self.vtable_type,
    {
        CapabilityTraitDecl {
            name: derive_blanket_trait_name(&self.target_trait),
            vis: self.vis.duplicate(),
            data_ptr_method: "data_ptr".to_owned(),
            vtable_method: derive_vtable_method_name(&self.target_trait),
            vtable_type: self.vtable_type.clone(),
        }
    }
}

/// Handles the possible-super-interface role, when configured: verifies the
/// table name is not customized, emits the capability trait and its blanket
/// implementation, and switches the build context to the blanket-capability
/// target mode for all later stages.
pub fn handle_possible_super_trait(
    stash: &mut StageStash,
    vis: Visibility,
    config: &InheritanceConfig,
) -> (r: Result<Option<PossibleSuperTrait>, Diagnostic>)
    ensures
        final(stash).trait_name == old(stash).trait_name,
        final(stash).vtable_name == old(stash).vtable_name,
        final(stash).vtable_name_span == old(stash).vtable_name_span,
        final(stash).repr_name == old(stash).repr_name,
        final(stash).super_trait == old(stash).super_trait,
        final(stash).trait_object_name == old(stash).trait_object_name,
        final(stash).vtable_items == old(stash).vtable_items,
        !config.possible_super_trait ==> (r matches Ok(p) && p is None && final(stash).target_impl
            == old(stash).target_impl),
        config.possible_super_trait && old(stash).vtable_name@ != vtable_name_of(
            old(stash).trait_name@,
        ) ==> r == Err::<Option<PossibleSuperTrait>, Diagnostic>(
            Diagnostic {
                kind: ErrorKind::CustomVtableNameUnsupported,
                span: old(stash).vtable_name_span,
            },
        ) && final(stash).target_impl == old(stash).target_impl,
        config.possible_super_trait && old(stash).vtable_name@ == vtable_name_of(
            old(stash).trait_name@,
        ) ==> ({
            &&& r matches Ok(p)
            &&& p matches Some(pst)
            &&& pst.target_trait == old(stash).trait_name
            &&& pst.vtable_type == old(stash).vtable_name
            &&& crate::ast::vis_same(pst.vis, vis)
            &&& pst.blanket_impl matches Some(bi)
            &&& bi.trait_name@ == blanket_trait_name_of(old(stash).trait_name@)
            &&& bi.implementor == old(stash).trait_object_name
            &&& bi.vtable_method@ == vtable_method_name_of(old(stash).trait_name@)
            &&& bi.vtable_type == old(stash).vtable_name
            &&& final(stash).target_impl.is_blanket_for(old(stash).trait_name@)
        }),
{
    if !config.possible_super_trait {
        return Ok(None);
    }
    let expected = derive_vtable_name(&stash.trait_name);
    if !stash.vtable_name.eq(&expected) {
        return Err(
            Diagnostic {
                kind: ErrorKind::CustomVtableNameUnsupported,
                span: stash.vtable_name_span,
            },
        );
    }
    let blanket_trait_name = derive_blanket_trait_name(&stash.trait_name);
    let vtable_method_name = derive_vtable_method_name(&stash.trait_name);
    let res = PossibleSuperTrait {
        target_trait: stash.trait_name.clone(),
        vtable_type: stash.vtable_name.clone(),
        vis: vis.duplicate(),
        blanket_impl: Some(
            PossibleSuperTraitImpl {
                trait_name: blanket_trait_name.clone(),
                implementor: stash.trait_object_name.duplicate(),
                vtable_method: vtable_method_name.clone(),
                vtable_type: stash.vtable_name.clone(),
            },
        ),
    };
    stash.target_impl = TargetImpl::BlanketTrait {
        trait_name: blanket_trait_name,
        vtable_method: vtable_method_name,
    };
    Ok(Some(res))
}

/// The extends artifact: an implementation of the super-interface's
/// capability trait for the current target, whose data-pointer method
/// forwards to the target's accessor and whose table accessor extracts the
/// embedded super-table field.
#[derive(Clone, Debug)]
pub struct ExtendsSuperTrait {
    /// The target the implementation is attached to (specific handle type or
    /// blanket over the capability trait).
    pub our_target: TargetImpl,
    /// The super-interface's path.
    pub super_trait: Path,
    /// The super-interface's capability trait path.
    pub super_trait_blanket_impl: Path,
    /// The super-interface's table type path.
    pub super_vtable_type: Path,
}

/// The fully resolved implementation the extends artifact emits.
#[derive(Clone, Debug)]
pub struct ExtendsImplDecl {
    /// The target the implementation is attached to.
    pub target: TargetImpl,
    /// The super-interface's capability trait path.
    pub super_trait_blanket_impl: Path,
    /// The super-interface's table type path.
    pub super_vtable_type: Path,
    /// The super-interface's table accessor name.
    pub super_vtable_method: String,
    /// The target's own data-pointer accessor, which the implementation
    /// forwards to.
    pub data_ptr_method: String,
    /// The target's own table accessor, from which the embedded super-table
    /// field is read.
    pub vtable_method: String,
}

impl ExtendsSuperTrait {
    /// Resolves the implementation of the super-interface's capability trait
    /// for the current target.
    pub fn generate_blanket_impl(&self) -> (r: ExtendsImplDecl)
        requires
            self.super_trait.segments@.len() > 0,
        ensures
            r.target == self.our_target,
            path_same(r.super_trait_blanket_impl, self.super_trait_blanket_impl),
            path_same(r.super_vtable_type, self.super_vtable_type),
            r.super_vtable_method@ == vtable_method_name_of(self.super_trait.spec_simple_name()),
            r.data_ptr_method@ == spec_data_ptr_method_name(self.our_target),
            r.vtable_method@ == spec_vtable_method_name(self.our_target),
    {
        ExtendsImplDecl {
            target: self.our_target.duplicate(),
            super_trait_blanket_impl: self.super_trait_blanket_impl.duplicate(),
            super_vtable_type: self.super_vtable_type.duplicate(),
            super_vtable_method: vtable_method_name(&self.super_trait),
            data_ptr_method: self.our_target.data_ptr_method_name(),
            vtable_method: self.our_target.vtable_method_name(),
        }
    }
}

/// Handles the `extends` relationship, when configured: computes the
/// super-interface's table type and capability trait names by the same
/// deterministic derivation, for the current target mode.
pub fn handle_extends(stash: &mut StageStash, config: &InheritanceConfig) -> (r: Result<
    Option<ExtendsSuperTrait>,
    Diagnostic,
>)
    requires
        config.extends matches Some(p) ==> p.segments@.len() > 0,
    ensures
        final(stash).trait_name == old(stash).trait_name,
        final(stash).vtable_name == old(stash).vtable_name,
        final(stash).vtable_name_span == old(stash).vtable_name_span,
        final(stash).repr_name == old(stash).repr_name,
        final(stash).super_trait == old(stash).super_trait,
        final(stash).trait_object_name == old(stash).trait_object_name,
        final(stash).vtable_items == old(stash).vtable_items,
        final(stash).target_impl == old(stash).target_impl,
        config.extends is None ==> (r matches Ok(e) && e is None),
        config.extends matches Some(p) ==> ({
            &&& r matches Ok(e)
            &&& e matches Some(ext)
            &&& ext.our_target == old(stash).target_impl
            &&& path_same(ext.super_trait, p)
            &&& renamed_last(
                ext.super_trait_blanket_impl,
                p,
                blanket_trait_name_of(p.spec_simple_name()),
            )
            &&& renamed_last(ext.super_vtable_type, p, vtable_name_of(p.spec_simple_name()))
        }),
{
    match &config.extends {
        Some(super_trait) => {
            let super_vtable = super_vtable_type(super_trait);
            let super_blanket = blanket_trait_path(super_trait);
            Ok(
                Some(
                    ExtendsSuperTrait {
                        our_target: stash.target_impl.duplicate(),
                        super_trait: super_trait.duplicate(),
                        super_trait_blanket_impl: super_blanket,
                        super_vtable_type: super_vtable,
                    },
                ),
            )
        },
        None => Ok(None),
    }
}

} // verus!
