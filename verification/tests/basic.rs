use thin_trait_object::ast::{
    FnArg, MethodSig, Receiver, TraitDecl, TraitItemDecl, Visibility,
};
use thin_trait_object::attr::{attribute_main, TargetImpl};
use thin_trait_object::repr::SlotRouting;
use thin_trait_object::vtable::DropRouting;

fn receiver_arg(span: usize) -> FnArg {
    FnArg::Receiver(Receiver { reference: true, mutable: false, span })
}

fn plain_method(name: &str, span: usize) -> TraitItemDecl {
    TraitItemDecl::Method(MethodSig {
        asyncness: None,
        unsafety: false,
        abi: None,
        name: name.to_string(),
        generics: Vec::new(),
        where_clause: None,
        inputs: vec![receiver_arg(span)],
        variadic: false,
        output: None,
        span,
    })
}

fn plain_trait(name: &str, items: Vec<TraitItemDecl>) -> TraitDecl {
    TraitDecl {
        name: name.to_string(),
        vis: Visibility::Public,
        generics: Vec::new(),
        supertraits: Vec::new(),
        items,
        span: 0,
    }
}

#[test]
fn basic() {
    let input = plain_trait("MyTrait", vec![plain_method("my_method", 1)]);
    let output = attribute_main(Vec::new(), input, false).unwrap();
    println!("{:?}", output);
}

#[test]
fn default_names() {
    let input = plain_trait("MyTrait", vec![plain_method("my_method", 1)]);
    let out = attribute_main(Vec::new(), input, false).unwrap();
    assert_eq!(out.vtable.name, "MyTraitVtable");
    assert_eq!(out.trait_object.name.primary_name, "BoxedMyTrait");
    assert_eq!(out.repr.name, "__ThinTraitObjectMacro_ReprForMyTrait");
    assert_eq!(out.repr.vtable_name, "MyTraitVtable");
    assert_eq!(out.trait_object.repr_name, "__ThinTraitObjectMacro_ReprForMyTrait");
}

#[test]
fn default_flags_and_layout() {
    let input = plain_trait("Foo", vec![plain_method("fooify", 1)]);
    let out = attribute_main(Vec::new(), input, false).unwrap();
    assert!(!out.vtable.store_layout);
    assert!(!out.repr.store_layout);
    assert!(!out.repr.inline_vtable);
    assert!(!out.trait_object.inline_vtable);
    assert!(out.trait_object.repr_transparent);
    assert!(out.vtable.add_default_repr_c);
    assert!(out.vtable.derive_copy_clone);
    assert!(out.vtable.drop_abi.is_none());
    // No static bound: the handle takes a lifetime parameter.
    assert!(out.trait_object.has_lifetime_param);
    assert!(out.trait_object.name.elided_lifetime);
}

#[test]
fn non_extensible_routing_is_direct() {
    let input = plain_trait("Foo", vec![plain_method("a", 1), plain_method("b", 2)]);
    let out = attribute_main(Vec::new(), input, false).unwrap();
    assert_eq!(out.repr.slot_inits.len(), 2);
    for init in &out.repr.slot_inits {
        assert_eq!(init.routing, SlotRouting::Direct);
        assert!(init.thunk_name.is_none());
    }
    assert!(out.repr.thunks.is_empty());
    assert!(out.possible_super_trait.is_none());
    assert!(out.extends_impl.is_none());
    assert!(matches!(
        out.trait_object.impl_target,
        TargetImpl::SpecificTraitObject { .. }
    ));
    assert_eq!(out.trait_object.data_ptr_method, "as_raw");
    assert_eq!(out.trait_object.vtable_method, "vtable");
}

#[test]
fn root_table_owns_the_drop_slot() {
    let input = plain_trait("Foo", vec![plain_method("a", 1)]);
    let out = attribute_main(Vec::new(), input, false).unwrap();
    assert!(out.vtable.has_drop_slot);
    assert!(out.vtable.super_table.is_none());
    assert_eq!(out.vtable.drop_routing(), DropRouting::CallLocalSlot);
    assert!(out.repr.has_drop_slot_init);
}

#[test]
fn one_slot_per_method_in_order() {
    let input = plain_trait(
        "Foo",
        vec![plain_method("first", 1), plain_method("second", 2), plain_method("third", 3)],
    );
    let out = attribute_main(Vec::new(), input, false).unwrap();
    assert_eq!(out.vtable.slots.len(), 3);
    assert_eq!(out.vtable.slots[0].name, "first");
    assert_eq!(out.vtable.slots[1].name, "second");
    assert_eq!(out.vtable.slots[2].name, "third");
    // Every slot's pointer type is promoted to unsafe with the receiver
    // erased to an untyped pointer.
    for slot in &out.vtable.slots {
        assert!(slot.fn_ptr.unsafety);
        match &slot.fn_ptr.params[0] {
            thin_trait_object::vtable::VtableFnArg::Normal(bare) => {
                assert!(bare.name.is_none());
                assert!(matches!(bare.ty, thin_trait_object::ast::TypeExpr::MutPtrCVoid));
            }
            _ => panic!("receiver was not erased"),
        }
    }
    assert_eq!(out.trait_object.forwarding.len(), 3);
    assert_eq!(out.trait_object.forwarding[1].slot, "second");
}
