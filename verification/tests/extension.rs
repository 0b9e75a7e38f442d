use thin_trait_object::ast::{
    FnArg, MethodSig, Path, Receiver, TraitDecl, TraitItemDecl, TypeExpr, Visibility,
};
use thin_trait_object::attr::{attribute_main, TargetImpl};
use thin_trait_object::error::ErrorKind;
use thin_trait_object::options::{
    OutputAdditions, RawOption, RawSubOption, RawSubValue, RawValue,
};
use thin_trait_object::repr::SlotRouting;
use thin_trait_object::vtable::DropRouting;

fn receiver_arg(span: usize) -> FnArg {
    FnArg::Receiver(Receiver { reference: true, mutable: false, span })
}

fn plain_method(name: &str, span: usize) -> TraitItemDecl {
    TraitItemDecl::Method(MethodSig {
        asyncness: None,
        unsafety: false,
        abi: None,
        name: name.to_string(),
        generics: Vec::new(),
        where_clause: None,
        inputs: vec![receiver_arg(span)],
        variadic: false,
        output: None,
        span,
    })
}

fn plain_trait(name: &str, items: Vec<TraitItemDecl>) -> TraitDecl {
    TraitDecl {
        name: name.to_string(),
        vis: Visibility::Public,
        generics: Vec::new(),
        supertraits: Vec::new(),
        items,
        span: 0,
    }
}

fn single_path(name: &str) -> Path {
    Path { leading_colon: false, segments: vec![name.to_string()] }
}

fn inheritance_option(subs: Vec<RawSubOption>, span: usize) -> RawOption {
    RawOption { name: "inheritance".to_string(), value: RawValue::Options(subs), span }
}

fn possible_super_trait_sub(val: bool, span: usize) -> RawSubOption {
    RawSubOption {
        name: "possible_super_trait".to_string(),
        value: RawSubValue::LitBool(val),
        span,
    }
}

fn extends_sub(path: Path, span: usize) -> RawSubOption {
    RawSubOption { name: "extends".to_string(), value: RawSubValue::PathGroup(path), span }
}

#[test]
fn possible_super_trait_switches_to_blanket_mode() {
    let options = vec![inheritance_option(vec![possible_super_trait_sub(true, 2)], 2)];
    let input = plain_trait("MyTrait", vec![plain_method("my_method", 1)]);
    let out = attribute_main(options, input, true).unwrap();
    let pst = out.possible_super_trait.expect("capability trait expected");
    assert_eq!(pst.target_trait, "MyTrait");
    assert_eq!(pst.vtable_type, "MyTraitVtable");
    assert_eq!(pst.blanket_trait_name(), "ThinTraitObject_Implements_MyTrait");
    let decl = pst.generate_trait_decl();
    assert_eq!(decl.name, "ThinTraitObject_Implements_MyTrait");
    assert_eq!(decl.data_ptr_method, "data_ptr");
    assert_eq!(decl.vtable_method, "vtable_MyTrait");
    assert_eq!(decl.vtable_type, "MyTraitVtable");
    let bi = pst.blanket_impl.expect("blanket impl expected");
    assert_eq!(bi.trait_name, "ThinTraitObject_Implements_MyTrait");
    assert_eq!(bi.vtable_method, "vtable_MyTrait");
    match &out.trait_object.impl_target {
        TargetImpl::BlanketTrait { trait_name, vtable_method } => {
            assert_eq!(trait_name, "ThinTraitObject_Implements_MyTrait");
            assert_eq!(vtable_method, "vtable_MyTrait");
        }
        _ => panic!("expected blanket-capability target mode"),
    }
    assert_eq!(out.trait_object.data_ptr_method, "data_ptr");
    assert_eq!(out.trait_object.vtable_method, "vtable_MyTrait");
}

#[test]
fn extension_routes_every_slot_through_a_thunk() {
    let options = vec![inheritance_option(vec![possible_super_trait_sub(true, 2)], 2)];
    let input = plain_trait("MyTrait", vec![plain_method("a", 1), plain_method("b", 2)]);
    let out = attribute_main(options, input, true).unwrap();
    assert_eq!(out.repr.slot_inits.len(), 2);
    assert_eq!(out.repr.thunks.len(), 2);
    for init in &out.repr.slot_inits {
        assert_eq!(init.routing, SlotRouting::Thunk);
    }
    assert_eq!(
        out.repr.slot_inits[0].thunk_name.as_deref(),
        Some("__thintraitobjectmacro_thunk_a")
    );
    assert_eq!(out.repr.thunks[0].signature.name, "__thintraitobjectmacro_thunk_a");
    assert_eq!(out.repr.thunks[0].target_method, "a");
    // Erasing the receiver promotes an otherwise safe thunk to unsafe.
    assert!(out.repr.thunks[0].signature.unsafety);
}

#[test]
fn extends_embeds_the_super_table_and_omits_the_drop_slot() {
    let options = vec![inheritance_option(vec![extends_sub(single_path("MyTrait"), 3)], 3)];
    let input = plain_trait("Sub", vec![plain_method("extra", 1)]);
    let out = attribute_main(options, input, true).unwrap();
    // The extending table has no destructor slot; teardown forwards to the
    // embedded super-table.
    assert!(!out.vtable.has_drop_slot);
    assert_eq!(out.vtable.drop_routing(), DropRouting::ForwardToSuper);
    assert!(!out.repr.has_drop_slot_init);
    let super_table = out.vtable.super_table.as_ref().expect("embedded super table");
    assert_eq!(super_table.segments, vec!["MyTraitVtable".to_string()]);
    let super_repr = out.repr.super_vtable_init.as_ref().expect("super table const");
    assert_eq!(super_repr.segments, vec!["__ThinTraitObjectMacro_ReprForMyTrait".to_string()]);
    // The root table, generated without extension, keeps the single slot.
    let root = attribute_main(
        Vec::new(),
        plain_trait("MyTrait", vec![plain_method("my_method", 1)]),
        false,
    )
    .unwrap();
    assert!(root.vtable.has_drop_slot);
    assert_eq!(root.vtable.drop_routing(), DropRouting::CallLocalSlot);
}

#[test]
fn extends_emits_snake_case_cast_accessors() {
    let options = vec![inheritance_option(vec![extends_sub(single_path("MyTrait"), 3)], 3)];
    let input = plain_trait("Sub", vec![plain_method("extra", 1)]);
    let out = attribute_main(options, input, true).unwrap();
    let cast = out.trait_object.cast_funcs.as_ref().expect("cast accessors");
    assert_eq!(cast.ref_fn, "as_my_trait");
    assert_eq!(cast.val_fn, "into_my_trait");
    assert_eq!(cast.super_object.segments, vec!["BoxedMyTrait".to_string()]);
    let ext = out.extends_impl.as_ref().expect("extends impl");
    assert_eq!(
        ext.super_trait_blanket_impl.segments,
        vec!["ThinTraitObject_Implements_MyTrait".to_string()]
    );
    assert_eq!(ext.super_vtable_type.segments, vec!["MyTraitVtable".to_string()]);
    let impl_decl = ext.generate_blanket_impl();
    assert_eq!(impl_decl.super_vtable_method, "vtable_MyTrait");
    assert_eq!(impl_decl.data_ptr_method, "as_raw");
    assert_eq!(impl_decl.vtable_method, "vtable");
}

#[test]
fn extends_through_a_qualified_path() {
    let super_path = Path {
        leading_colon: false,
        segments: vec!["deps".to_string(), "HttpHandler".to_string()],
    };
    let options = vec![inheritance_option(vec![extends_sub(super_path, 3)], 3)];
    let input = plain_trait("Sub", vec![plain_method("extra", 1)]);
    let out = attribute_main(options, input, true).unwrap();
    let super_table = out.vtable.super_table.as_ref().expect("embedded super table");
    assert_eq!(
        super_table.segments,
        vec!["deps".to_string(), "HttpHandlerVtable".to_string()]
    );
    let cast = out.trait_object.cast_funcs.as_ref().expect("cast accessors");
    assert_eq!(cast.ref_fn, "as_http_handler");
    assert_eq!(cast.val_fn, "into_http_handler");
    assert_eq!(
        cast.super_object.segments,
        vec!["deps".to_string(), "BoxedHttpHandler".to_string()]
    );
}

#[test]
fn inheritance_requires_the_capability() {
    let options = vec![inheritance_option(vec![possible_super_trait_sub(true, 2)], 2)];
    let input = plain_trait("MyTrait", vec![plain_method("m", 1)]);
    let err = attribute_main(options, input, false).unwrap_err();
    assert_eq!(err.kind, ErrorKind::InheritanceNotEnabled);
}

#[test]
fn possible_super_trait_forbids_a_custom_table_name() {
    let custom_vtable = RawOption {
        name: "vtable".to_string(),
        value: RawValue::Additions(OutputAdditions {
            attributes: Vec::new(),
            visibility: Visibility::Public,
            name: "MyCustomVt".to_string(),
            name_span: 9,
        }),
        span: 9,
    };
    let options = vec![
        custom_vtable,
        inheritance_option(vec![possible_super_trait_sub(true, 2)], 2),
    ];
    let input = plain_trait("MyTrait", vec![plain_method("m", 1)]);
    let err = attribute_main(options, input, true).unwrap_err();
    assert_eq!(err.kind, ErrorKind::CustomVtableNameUnsupported);
    assert_eq!(err.span, 9);
}

#[test]
fn custom_names_win_over_derivation() {
    let options = vec![
        RawOption {
            name: "vtable".to_string(),
            value: RawValue::Additions(OutputAdditions {
                attributes: Vec::new(),
                visibility: Visibility::Public,
                name: "MyVt".to_string(),
                name_span: 4,
            }),
            span: 4,
        },
        RawOption {
            name: "trait_object".to_string(),
            value: RawValue::Additions(OutputAdditions {
                attributes: Vec::new(),
                visibility: Visibility::Inherited,
                name: "MyBox".to_string(),
                name_span: 5,
            }),
            span: 5,
        },
    ];
    let input = plain_trait("Foo", vec![plain_method("m", 1)]);
    let out = attribute_main(options, input, false).unwrap();
    assert_eq!(out.vtable.name, "MyVt");
    assert_eq!(out.trait_object.name.primary_name, "MyBox");
    // The representation name is never customizable.
    assert_eq!(out.repr.name, "__ThinTraitObjectMacro_ReprForFoo");
}

#[test]
fn flags_and_drop_abi_propagate() {
    let options = vec![
        RawOption {
            name: "inline_vtable".to_string(),
            value: RawValue::LitBool(true),
            span: 1,
        },
        RawOption {
            name: "store_layout".to_string(),
            value: RawValue::LitBool(true),
            span: 2,
        },
        RawOption {
            name: "drop_abi".to_string(),
            value: RawValue::LitStr("C".to_string()),
            span: 3,
        },
    ];
    let input = plain_trait("Foo", vec![plain_method("m", 1)]);
    let out = attribute_main(options, input, false).unwrap();
    assert!(out.repr.inline_vtable);
    assert!(out.trait_object.inline_vtable);
    assert!(out.vtable.store_layout);
    assert!(out.repr.store_layout);
    assert_eq!(out.vtable.drop_abi.as_deref(), Some("C"));
    assert_eq!(out.repr.drop_abi.as_deref(), Some("C"));
}

#[test]
fn last_occurrence_of_an_option_wins() {
    let options = vec![
        RawOption {
            name: "inline_vtable".to_string(),
            value: RawValue::LitBool(true),
            span: 1,
        },
        RawOption {
            name: "inline_vtable".to_string(),
            value: RawValue::LitBool(false),
            span: 2,
        },
    ];
    let input = plain_trait("Foo", vec![plain_method("m", 1)]);
    let out = attribute_main(options, input, false).unwrap();
    assert!(!out.repr.inline_vtable);
}

#[test]
fn method_output_and_abi_carry_through() {
    let sig = MethodSig {
        asyncness: None,
        unsafety: true,
        abi: Some("C".to_string()),
        name: "compute".to_string(),
        generics: Vec::new(),
        where_clause: None,
        inputs: vec![
            receiver_arg(1),
            FnArg::Typed { name: None, ty: TypeExpr::Source("u32".to_string()) },
            FnArg::Typed {
                name: Some("x".to_string()),
                ty: TypeExpr::Source("bool".to_string()),
            },
        ],
        variadic: false,
        output: Some(TypeExpr::Source("i64".to_string())),
        span: 1,
    };
    let input = plain_trait("Foo", vec![TraitItemDecl::Method(sig)]);
    let out = attribute_main(Vec::new(), input, false).unwrap();
    let slot = &out.vtable.slots[0];
    assert_eq!(slot.fn_ptr.abi.as_deref(), Some("C"));
    assert!(matches!(
        slot.fn_ptr.output,
        Some(TypeExpr::Source(ref s)) if s == "i64"
    ));
    // The forwarding implementation numbers the unnamed parameter and keeps
    // the named one.
    let fwd = &out.trait_object.forwarding[0];
    assert!(fwd.signature.unsafety);
    match &fwd.signature.inputs[1] {
        thin_trait_object::vtable::SigArg::Typed { name, .. } => assert_eq!(name, "__arg0"),
        _ => panic!("expected a typed parameter"),
    }
    match &fwd.signature.inputs[2] {
        thin_trait_object::vtable::SigArg::Typed { name, .. } => assert_eq!(name, "x"),
        _ => panic!("expected a typed parameter"),
    }
}
