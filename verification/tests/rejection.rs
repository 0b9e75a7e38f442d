use thin_trait_object::ast::{
    FnArg, GenericParam, GenericParamKind, MethodSig, Receiver, TraitDecl, TraitItemDecl,
    TypeExpr, Visibility,
};
use thin_trait_object::attr::attribute_main;
use thin_trait_object::error::ErrorKind;
use thin_trait_object::ast::AttrDecl;
use thin_trait_object::options::{OutputAdditions, RawOption, RawValue};

fn receiver_arg(span: usize) -> FnArg {
    FnArg::Receiver(Receiver { reference: true, mutable: false, span })
}

fn method_sig(name: &str, span: usize) -> MethodSig {
    MethodSig {
        asyncness: None,
        unsafety: false,
        abi: None,
        name: name.to_string(),
        generics: Vec::new(),
        where_clause: None,
        inputs: vec![receiver_arg(span)],
        variadic: false,
        output: None,
        span,
    }
}

fn plain_trait(name: &str, items: Vec<TraitItemDecl>) -> TraitDecl {
    TraitDecl {
        name: name.to_string(),
        vis: Visibility::Public,
        generics: Vec::new(),
        supertraits: Vec::new(),
        items,
        span: 0,
    }
}

#[test]
fn by_value_receiver_is_a_missing_receiver() {
    // fn get(self) -> i32
    let sig = MethodSig {
        asyncness: None,
        unsafety: false,
        abi: None,
        name: "get".to_string(),
        generics: Vec::new(),
        where_clause: None,
        inputs: vec![FnArg::Receiver(Receiver { reference: false, mutable: false, span: 7 })],
        variadic: false,
        output: Some(TypeExpr::Source("i32".to_string())),
        span: 6,
    };
    let input = plain_trait("Foo", vec![TraitItemDecl::Method(sig)]);
    let err = attribute_main(Vec::new(), input, false).unwrap_err();
    assert_eq!(err.kind, ErrorKind::MissingReceiver);
    assert_eq!(err.span, 7);
}

#[test]
fn free_function_item_is_a_missing_receiver() {
    let sig = MethodSig {
        inputs: Vec::new(),
        ..method_sig("helper", 4)
    };
    let input = plain_trait("Foo", vec![TraitItemDecl::Method(sig)]);
    let err = attribute_main(Vec::new(), input, false).unwrap_err();
    assert_eq!(err.kind, ErrorKind::MissingReceiver);
    assert_eq!(err.span, 4);
}

#[test]
fn associated_constant_is_unsupported() {
    // const N: i32;
    let input = plain_trait("Foo", vec![TraitItemDecl::AssocConst { span: 9 }]);
    let err = attribute_main(Vec::new(), input, false).unwrap_err();
    assert_eq!(err.kind, ErrorKind::UnsupportedItemKind);
    assert_eq!(err.span, 9);
}

#[test]
fn associated_type_is_unsupported() {
    let input = plain_trait("Foo", vec![TraitItemDecl::AssocType { span: 11 }]);
    let err = attribute_main(Vec::new(), input, false).unwrap_err();
    assert_eq!(err.kind, ErrorKind::UnsupportedItemKind);
}

#[test]
fn macro_item_is_unsupported() {
    let input = plain_trait("Foo", vec![TraitItemDecl::MacroInvocation { span: 13 }]);
    let err = attribute_main(Vec::new(), input, false).unwrap_err();
    assert_eq!(err.kind, ErrorKind::MacroItemUnsupported);
    assert_eq!(err.span, 13);
}

#[test]
fn type_parameter_is_not_object_safe() {
    // fn f<U>(&self, x: U)
    let sig = MethodSig {
        generics: vec![GenericParam { kind: GenericParamKind::TypeParam, span: 5 }],
        inputs: vec![
            receiver_arg(1),
            FnArg::Typed { name: Some("x".to_string()), ty: TypeExpr::Source("U".to_string()) },
        ],
        ..method_sig("f", 1)
    };
    let input = plain_trait("Foo", vec![TraitItemDecl::Method(sig)]);
    let err = attribute_main(Vec::new(), input, false).unwrap_err();
    assert_eq!(err.kind, ErrorKind::GenericsUnsupported);
    assert_eq!(err.span, 5);
}

#[test]
fn const_parameter_is_not_object_safe() {
    let sig = MethodSig {
        generics: vec![GenericParam { kind: GenericParamKind::ConstParam, span: 8 }],
        ..method_sig("f", 1)
    };
    let input = plain_trait("Foo", vec![TraitItemDecl::Method(sig)]);
    let err = attribute_main(Vec::new(), input, false).unwrap_err();
    assert_eq!(err.kind, ErrorKind::GenericsUnsupported);
}

#[test]
fn where_clause_is_not_object_safe() {
    let sig = MethodSig { where_clause: Some(3), ..method_sig("f", 1) };
    let input = plain_trait("Foo", vec![TraitItemDecl::Method(sig)]);
    let err = attribute_main(Vec::new(), input, false).unwrap_err();
    assert_eq!(err.kind, ErrorKind::GenericsUnsupported);
    assert_eq!(err.span, 3);
}

#[test]
fn lifetime_parameters_alone_are_accepted() {
    let sig = MethodSig {
        generics: vec![GenericParam {
            kind: GenericParamKind::Lifetime("a".to_string()),
            span: 2,
        }],
        ..method_sig("f", 1)
    };
    let input = plain_trait("Foo", vec![TraitItemDecl::Method(sig)]);
    let out = attribute_main(Vec::new(), input, false).unwrap();
    assert_eq!(out.vtable.slots[0].fn_ptr.lifetimes, vec!["a".to_string()]);
}

#[test]
fn async_method_is_rejected() {
    let sig = MethodSig { asyncness: Some(12), ..method_sig("f", 1) };
    let input = plain_trait("Foo", vec![TraitItemDecl::Method(sig)]);
    let err = attribute_main(Vec::new(), input, false).unwrap_err();
    assert_eq!(err.kind, ErrorKind::AsyncUnsupported);
    assert_eq!(err.span, 12);
}

#[test]
fn generic_interface_is_rejected() {
    let input = TraitDecl {
        name: "Foo".to_string(),
        vis: Visibility::Public,
        generics: vec![GenericParam { kind: GenericParamKind::TypeParam, span: 2 }],
        supertraits: Vec::new(),
        items: vec![TraitItemDecl::Method(method_sig("m", 1))],
        span: 0,
    };
    let err = attribute_main(Vec::new(), input, false).unwrap_err();
    assert_eq!(err.kind, ErrorKind::GenericInterface);
    assert_eq!(err.span, 2);
}

#[test]
fn non_boolean_flag_value_is_malformed() {
    // inline_vtable = maybe
    let options = vec![RawOption {
        name: "inline_vtable".to_string(),
        value: RawValue::Word("maybe".to_string()),
        span: 3,
    }];
    let input = plain_trait("Foo", vec![TraitItemDecl::Method(method_sig("m", 1))]);
    let err = attribute_main(options, input, false).unwrap_err();
    assert_eq!(err.kind, ErrorKind::MalformedValue);
    assert_eq!(err.span, 3);
}

#[test]
fn string_where_boolean_expected_is_malformed() {
    let options = vec![RawOption {
        name: "store_layout".to_string(),
        value: RawValue::LitStr("true".to_string()),
        span: 4,
    }];
    let input = plain_trait("Foo", vec![TraitItemDecl::Method(method_sig("m", 1))]);
    let err = attribute_main(options, input, false).unwrap_err();
    assert_eq!(err.kind, ErrorKind::MalformedValue);
}

#[test]
fn unknown_configuration_key_is_rejected() {
    let options = vec![RawOption {
        name: "vtables".to_string(),
        value: RawValue::LitBool(true),
        span: 6,
    }];
    let input = plain_trait("Foo", vec![TraitItemDecl::Method(method_sig("m", 1))]);
    let err = attribute_main(options, input, false).unwrap_err();
    assert_eq!(err.kind, ErrorKind::UnknownOption);
    assert_eq!(err.span, 6);
}

#[test]
fn first_configuration_error_wins() {
    let options = vec![
        RawOption {
            name: "inline_vtable".to_string(),
            value: RawValue::Word("maybe".to_string()),
            span: 1,
        },
        RawOption {
            name: "vtables".to_string(),
            value: RawValue::LitBool(true),
            span: 2,
        },
    ];
    let input = plain_trait("Foo", vec![TraitItemDecl::Method(method_sig("m", 1))]);
    let err = attribute_main(options, input, false).unwrap_err();
    assert_eq!(err.kind, ErrorKind::MalformedValue);
    assert_eq!(err.span, 1);
}

#[test]
fn first_offending_item_wins() {
    let items = vec![
        TraitItemDecl::Method(method_sig("ok", 1)),
        TraitItemDecl::AssocConst { span: 2 },
        TraitItemDecl::MacroInvocation { span: 3 },
    ];
    let input = plain_trait("Foo", items);
    let err = attribute_main(Vec::new(), input, false).unwrap_err();
    assert_eq!(err.kind, ErrorKind::UnsupportedItemKind);
    assert_eq!(err.span, 2);
}

#[test]
fn forbidden_decoration_on_the_handle_type() {
    let options = vec![RawOption {
        name: "trait_object".to_string(),
        value: RawValue::Additions(OutputAdditions {
            attributes: vec![AttrDecl {
                head: "derive".to_string(),
                rest: "(Copy)".to_string(),
                span: 21,
            }],
            visibility: Visibility::Public,
            name: "MyBox".to_string(),
            name_span: 20,
        }),
        span: 20,
    }];
    let input = plain_trait("Foo", vec![TraitItemDecl::Method(method_sig("m", 1))]);
    let err = attribute_main(options, input, false).unwrap_err();
    assert_eq!(err.kind, ErrorKind::ForbiddenDecoration);
    assert_eq!(err.span, 21);
}

#[test]
fn layout_override_on_the_handle_type_is_forbidden() {
    let options = vec![RawOption {
        name: "trait_object".to_string(),
        value: RawValue::Additions(OutputAdditions {
            attributes: vec![AttrDecl {
                head: "repr".to_string(),
                rest: "(C)".to_string(),
                span: 22,
            }],
            visibility: Visibility::Public,
            name: "MyBox".to_string(),
            name_span: 20,
        }),
        span: 20,
    }];
    let input = plain_trait("Foo", vec![TraitItemDecl::Method(method_sig("m", 1))]);
    let err = attribute_main(options, input, false).unwrap_err();
    assert_eq!(err.kind, ErrorKind::ForbiddenDecoration);
    assert_eq!(err.span, 22);
}

#[test]
fn repr_attribute_on_the_table_overrides_the_default() {
    let options = vec![RawOption {
        name: "vtable".to_string(),
        value: RawValue::Additions(OutputAdditions {
            attributes: vec![AttrDecl {
                head: "repr".to_string(),
                rest: "(custom_repr)".to_string(),
                span: 30,
            }],
            visibility: Visibility::Public,
            name: "MyVt".to_string(),
            name_span: 29,
        }),
        span: 29,
    }];
    let input = plain_trait("Foo", vec![TraitItemDecl::Method(method_sig("m", 1))]);
    let out = attribute_main(options, input, false).unwrap();
    assert!(!out.vtable.add_default_repr_c);
    assert_eq!(out.vtable.attributes.len(), 1);
}
