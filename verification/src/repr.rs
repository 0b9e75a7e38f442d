//! The representation generator: the generic wrapper type that pairs a
//! wrapped value with its dispatch table, its table constant, its
//! construction and destructor-thunk operations, and the per-method
//! forwarding thunks.
//!
//! The wrapper's layout puts the table field first, so reinterpreting a
//! pointer to the wrapper as a pointer to the table is always valid: that is
//! the layout invariant the handle type relies on.

use vstd::prelude::*;

use crate::ast::Path;
use crate::attr::{StageStash, TargetImpl};
use crate::inheritance::renamed_last;
use crate::names::{derive_thunk_name, repr_name_of, thunk_name_of};
use crate::vtable::{
    promoted_params, sig_arg_ok, unnamed_before, Signature, VtableItem,
};

verus! {

/// Derives the representation type name from the interface name.
pub fn repr_name_from_trait_name(trait_name: &String) -> (r: String)
    ensures
        r@ == repr_name_of(trait_name@),
{
    let mut r = "__ThinTraitObjectMacro_ReprFor".to_owned();
    r.append(trait_name.as_str());
    r
}

/// How a table slot is filled for a concrete implementation type.
#[derive(Clone, Copy, Debug, PartialEq, Eq, Structural)]
pub enum SlotRouting {
    /// The slot holds a direct reference to the implementing type's method:
    /// single indirection, valid only when no extension adapter may ever be
    /// interposed.
    Direct,
    /// The slot holds a synthesized forwarding thunk that reconstructs the
    /// representation type and calls through normally: one extra
    /// indirection, kept correct under extension.
    Thunk,
}

/// The initialization of one table slot in the representation's table
/// constant.
#[derive(Clone, Debug)]
pub struct SlotInit {
    /// The slot's name: the method name.
    pub name: String,
    /// Whether the slot is filled directly or through a thunk.
    pub routing: SlotRouting,
    /// The thunk's name, exactly when the routing is a thunk.
    pub thunk_name: Option<String>,
}

/// One synthesized forwarding thunk: a function with the receiver erased to
/// an untyped pointer that reinterprets the pointer as the representation
/// type, reaches into the wrapped value, and calls the method.
#[derive(Clone, Debug)]
pub struct ThunkDef {
    /// The thunk's full signature, every parameter named.
    pub signature: Signature,
    /// The method the thunk forwards to.
    pub target_method: String,
}

/// The representation artifact: the generic wrapper type, its table
/// constant, its construction and destructor-thunk operations, and its
/// forwarding thunks.
#[derive(Clone, Debug)]
pub struct ReprDef {
    /// The wrapper type's name.
    pub name: String,
    /// The interface the wrapped value implements.
    pub trait_name: String,
    /// The table type's name.
    pub vtable_name: String,
    /// Whether the table field holds the table by value; otherwise it holds
    /// a static-duration reference to it. The field is first either way.
    pub inline_vtable: bool,
    /// The path of the owned-allocation primitive used by construction and
    /// teardown.
    pub box_path: Path,
    /// Whether the table constant embeds the implementation's size and
    /// alignment.
    pub store_layout: bool,
    /// The super-interface's representation type path, whose table constant
    /// initializes the embedded super-table; present exactly when the
    /// interface extends another.
    pub super_vtable_init: Option<Path>,
    /// Whether the table constant initializes a destructor slot; true
    /// exactly at the root of an extension chain.
    pub has_drop_slot_init: bool,
    /// The destructor thunk's calling convention, when configured.
    pub drop_abi: Option<String>,
    /// One initialization per table slot, in declaration order.
    pub slot_inits: Vec<SlotInit>,
    /// The synthesized forwarding thunks, one per thunk-routed slot, in
    /// declaration order.
    pub thunks: Vec<ThunkDef>,
}

/// Whether extension support is active for the interface being generated:
/// it extends another interface, or it may itself serve as a
/// super-interface. Active extension routes every slot through a thunk to
/// keep future extension derivation simple; otherwise every slot dispatches
/// directly.
pub open spec fn extension_active(stash: StageStash) -> bool {
    stash.super_trait is Some || stash.target_impl is BlanketTrait
}

/// Decides whether extension support is active for the build context.
pub fn is_extension_active(stash: &StageStash) -> (r: bool)
    ensures
        r == extension_active(*stash),
{
    match (&stash.super_trait, &stash.target_impl) {
        (Some(_), _) => true,
        (_, TargetImpl::BlanketTrait { .. }) => true,
        _ => false,
    }
}

/// The prefix of the numbered argument names the thunks use.
pub open spec fn thunk_arg_prefix() -> Seq<char> {
    "__thintraitobjectmacro_arg"@
}

/// Whether a thunk is the right forwarding function for a method
/// descriptor: named by the deterministic derivation, receiver erased,
/// promoted to `unsafe` exactly when a receiver was erased, every unnamed
/// parameter numbered, forwarding to the method itself.
pub open spec fn thunk_matches(t: ThunkDef, item: VtableItem) -> bool {
    let promoted = promoted_params(item.inputs@);
    &&& t.target_method == item.name
    &&& t.signature.name@ == thunk_name_of(item.name@)
    &&& t.signature.unsafety == (item.unsafety || exists|i: int|
        0 <= i < item.inputs@.len() && (#[trigger] item.inputs@[i]) is Receiver)
    &&& t.signature.abi == item.abi
    &&& t.signature.lifetimes@ == item.lifetimes@
    &&& t.signature.variadic == item.variadic
    &&& t.signature.output == item.output
    &&& t.signature.inputs@.len() == promoted.len()
    &&& forall|i: int|
        0 <= i < promoted.len() ==> sig_arg_ok(
            promoted[i],
            #[trigger] t.signature.inputs@[i],
            thunk_arg_prefix(),
            unnamed_before(promoted, i),
        )
}

/// Whether a slot initialization routes the given method the way the
/// extension policy demands.
pub open spec fn slot_init_matches(s: SlotInit, item: VtableItem, thunk_all: bool) -> bool {
    &&& s.name == item.name
    &&& if thunk_all {
        s.routing == SlotRouting::Thunk && (s.thunk_name matches Some(n) && n@ == thunk_name_of(
            item.name@,
        ))
    } else {
        s.routing == SlotRouting::Direct && s.thunk_name is None
    }
}

/// Builds the representation artifact: the wrapper type with the table
/// field first, the table constant (embedding the super-table and layout
/// metadata when configured, and the destructor slot at the root only), the
/// construction and destructor-thunk operations, and — exactly when
/// extension support is active — one forwarding thunk per method, every
/// slot then routed through its thunk; with extension inactive every slot
/// dispatches directly and no thunk is synthesized.
#[verifier::loop_isolation(false)]
pub fn generate_repr(
    stash: &StageStash,
    inline_vtable: bool,
    path_to_box: Path,
    drop_abi: &Option<String>,
    store_layout: bool,
) -> (r: ReprDef)
    requires
        stash.super_trait matches Some(p) ==> p.segments@.len() > 0,
    ensures
        r.name == stash.repr_name,
        r.trait_name == stash.trait_name,
        r.vtable_name == stash.vtable_name,
        r.inline_vtable == inline_vtable,
        r.box_path == path_to_box,
        r.store_layout == store_layout,
        match stash.super_trait {
            Some(p) => r.super_vtable_init matches Some(q) && renamed_last(
                q,
                p,
                repr_name_of(p.spec_simple_name()),
            ),
            None => r.super_vtable_init is None,
        },
        r.has_drop_slot_init == (stash.super_trait is None),
        r.drop_abi == *drop_abi,
        r.slot_inits@.len() == stash.vtable_items@.len(),
        forall|i: int|
            0 <= i < r.slot_inits@.len() ==> slot_init_matches(
                #[trigger] r.slot_inits@[i],
                stash.vtable_items@[i],
                extension_active(*stash),
            ),
        extension_active(*stash) ==> ({
            &&& r.thunks@.len() == stash.vtable_items@.len()
            &&& forall|i: int|
                0 <= i < r.thunks@.len() ==> thunk_matches(
                    #[trigger] r.thunks@[i],
                    stash.vtable_items@[i],
                )
        }),
        !extension_active(*stash) ==> r.thunks@.len() == 0,
{
    let thunk_all = is_extension_active(stash);
    let mut slot_inits: Vec<SlotInit> = Vec::new();
    let mut thunks: Vec<ThunkDef> = Vec::new();
    let mut m: usize = 0;
    while m < stash.vtable_items.len()
        invariant
            0 <= m <= stash.vtable_items@.len(),
            slot_inits@.len() == m,
            forall|j: int|
                0 <= j < m ==> slot_init_matches(
                    #[trigger] slot_inits@[j],
                    stash.vtable_items@[j],
                    thunk_all,
                ),
            thunk_all ==> ({
                &&& thunks@.len() == m
                &&& forall|j: int|
                    0 <= j < m ==> thunk_matches(#[trigger] thunks@[j], stash.vtable_items@[j])
            }),
            !thunk_all ==> thunks@.len() == 0,
        decreases stash.vtable_items@.len() - m,
    {
        let item = &stash.vtable_items[m];
        if thunk_all {
            let mut owned = item.duplicate();
            let has_receiver = owned.make_raw();
            if has_receiver {
                owned.make_unsafe();
            }
            let thunk_name = derive_thunk_name(&item.name);
            let mut signature = owned.into_signature("__thintraitobjectmacro_arg");
            signature.name = thunk_name.clone();
            thunks.push(ThunkDef { signature, target_method: item.name.clone() });
            slot_inits.push(
                SlotInit {
                    name: item.name.clone(),
                    routing: SlotRouting::Thunk,
                    thunk_name: Some(thunk_name),
                },
            );
        } else {
            slot_inits.push(
                SlotInit {
                    name: item.name.clone(),
                    routing: SlotRouting::Direct,
                    thunk_name: None,
                },
            );
        }
        m += 1;
    }
    let super_vtable_init = match &stash.super_trait {
        Some(p) => {
            let simple = repr_name_from_trait_name(p.simple_name());
            Some(p.with_simple_name(simple))
        },
        None => None,
    };
    ReprDef {
        name: stash.repr_name.clone(),
        trait_name: stash.trait_name.clone(),
        vtable_name: stash.vtable_name.clone(),
        inline_vtable,
        box_path: path_to_box,
        store_layout,
        super_vtable_init,
        has_drop_slot_init: match &stash.super_trait {
            Some(_) => false,
            None => true,
        },
        drop_abi: crate::vtable::clone_opt_string(drop_abi),
        slot_inits,
        thunks,
    }
}

/// The path of the owned-allocation primitive: `::std::boxed::Box`.
pub fn path_to_box() -> (r: Path)
    ensures
        r.leading_colon,
        r.segments@.len() == 3,
        r.segments@[0]@ == "std"@,
        r.segments@[1]@ == "boxed"@,
        r.segments@[2]@ == "Box"@,
{
    let mut segments: Vec<String> = Vec::new();
    segments.push("std".to_owned());
    segments.push("boxed".to_owned());
    segments.push("Box".to_owned());
    Path { leading_colon: true, segments }
}

} // verus!
